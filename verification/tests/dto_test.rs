use std::sync::Arc;

use luatalk::dto::{self, DtoError};
use luatalk::{Article, Body, ImageValue, Lang, Msg, Page, Profile, Role, TextValue};

fn sample_article() -> Article {
    let her = Arc::new(Profile::new(
        "Her".to_owned(),
        ImageValue::new("avatars/her.webp".to_owned(), Some("https://example.com/her.webp".to_owned())),
    ));
    Article::new(
        Lang::ZhHant,
        vec![
            Page::new(vec![
                Msg::new(Role::Guest, Body::Text(TextValue::new("hello".to_owned())), Some(Arc::clone(&her))),
                Msg::new(Role::Host, Body::Image(ImageValue::new("local.png".to_owned(), None)), None),
            ]),
            Page::new(vec![Msg::new(Role::BondStory, Body::Text(TextValue::new("story".to_owned())), None)]),
        ],
    )
}

fn dto_image(path: Option<&str>, url: Option<&str>) -> dto::ImageValue {
    dto::ImageValue { path: path.map(str::to_owned), url: url.map(str::to_owned) }
}

#[test]
fn dump_then_load_gives_the_article_back() {
    let article = sample_article();
    let dumped = dto::Article::from(article.clone());
    assert_eq!(dumped.lang, dto::Lang::ZhHant);
    assert_eq!(dumped.pages[0].msgs[1].body, dto::Body::Image(dto_image(Some("local.png"), None)));
    let loaded = Article::try_from(dumped).unwrap();
    assert_eq!(loaded, article);
}

#[test]
fn load_then_dump_keeps_articles_with_paths() {
    let d = dto::Article {
        lang: dto::Lang::Ja,
        pages: vec![dto::Page {
            msgs: vec![dto::Msg {
                role: dto::Role::Guest,
                body: dto::Body::Image(dto_image(Some("x.png"), Some("https://example.com/x.png"))),
                profile: Some(dto::Profile { name: "n".to_owned(), avatar: dto_image(Some("y.png"), None) }),
            }],
        }],
    };
    let back = dto::Article::from(Article::try_from(d.clone()).unwrap());
    assert_eq!(back, d);
}

#[test]
fn path_is_derived_from_url_with_last_segment() {
    let image = ImageValue::try_from(dto_image(None, Some("https://example.com/image.webp"))).unwrap();
    assert_eq!(image.path(), "D1Q78S3J78NIUPBOC5MN0R355PHMUR9FD5MM2PR55PRMAOJG-image.webp");
    assert_eq!(image.url().as_deref(), Some("https://example.com/image.webp"));

    let image = ImageValue::try_from(dto_image(None, Some("https://example.com/a/b.png?x=1"))).unwrap();
    assert_eq!(image.path(), "D1Q78S3J78NIUPBOC5MN0R355PHMUR9FC4NM4BJGDPJJUU1T64-b.png");
}

#[test]
fn path_is_the_encoding_alone_without_a_usable_segment() {
    let image = ImageValue::try_from(dto_image(None, Some("https://example.com/"))).unwrap();
    assert_eq!(image.path(), "D1Q78S3J78NIUPBOC5MN0R355PHMUR9F");
    let image = ImageValue::try_from(dto_image(None, Some("not a url"))).unwrap();
    assert_eq!(image.path(), "DPNN883141QN4R0");
    let image = ImageValue::try_from(dto_image(None, Some("mailto:someone@example.com"))).unwrap();
    assert_eq!(image.path(), "DLGMIR3KDST76RRDCLNMSPA0CLS62RBGDHIISORFDK");
}

#[test]
fn given_path_is_kept() {
    let image = ImageValue::try_from(dto_image(Some("here.png"), Some("https://example.com/x.png"))).unwrap();
    assert_eq!(image.into_path_and_url(), ("here.png".to_owned(), Some("https://example.com/x.png".to_owned())));
}

#[test]
fn image_without_path_nor_url_is_refused() {
    assert_eq!(ImageValue::try_from(dto_image(None, None)), Err(DtoError::NeitherPathNorUrl));
    let d = dto::Article {
        lang: dto::Lang::En,
        pages: vec![dto::Page {
            msgs: vec![dto::Msg {
                role: dto::Role::Host,
                body: dto::Body::Text(dto::TextValue { content: "ok".to_owned() }),
                profile: Some(dto::Profile { name: "n".to_owned(), avatar: dto_image(None, None) }),
            }],
        }],
    };
    assert_eq!(Article::try_from(d), Err(DtoError::NeitherPathNorUrl));
}

#[test]
fn languages_and_roles_map_one_to_one() {
    for (l, d) in [
        (Lang::En, dto::Lang::En),
        (Lang::Ja, dto::Lang::Ja),
        (Lang::Ko, dto::Lang::Ko),
        (Lang::ZhHans, dto::Lang::ZhHans),
        (Lang::ZhHant, dto::Lang::ZhHant),
    ] {
        assert_eq!(dto::Lang::from(l), d);
        assert_eq!(Lang::from(d), l);
    }
    for (r, d) in [
        (Role::Guest, dto::Role::Guest),
        (Role::Host, dto::Role::Host),
        (Role::System, dto::Role::System),
        (Role::Reply, dto::Role::Reply),
        (Role::BondStory, dto::Role::BondStory),
    ] {
        assert_eq!(dto::Role::from(r), d);
        assert_eq!(Role::from(d), r);
    }
}
