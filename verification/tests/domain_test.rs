use std::sync::Arc;

use luatalk::model::domain::EnsureStep;
use luatalk::{Article, Body, ImageValue, InLang, IntoAndLang, IntoWithLang, Lang, Msg, Page, Profile, Role, TextValue};

fn msg(content: &str) -> Msg {
    Msg::new(Role::System, Body::Text(TextValue::new(content.to_owned())), None)
}

#[test]
fn concat_pages_joins_messages_in_order() {
    let article = Article::new(
        Lang::Ja,
        vec![Page::new(vec![msg("a"), msg("b")]), Page::new(vec![]), Page::new(vec![msg("c")])],
    );
    let joined = article.concat_pages();
    assert_eq!(joined.lang(), Lang::Ja);
    assert_eq!(joined.pages().len(), 1);
    assert_eq!(joined.into_pages()[0].msgs(), &vec![msg("a"), msg("b"), msg("c")]);
}

#[test]
fn concat_pages_of_no_page_is_one_empty_page() {
    let joined = Article::new(Lang::En, vec![]).concat_pages();
    assert_eq!(joined.into_pages(), vec![Page::new(vec![])]);
}

#[test]
fn concat_pages_twice_is_once() {
    let article = Article::new(Lang::Ko, vec![Page::new(vec![msg("a")]), Page::new(vec![msg("b")])]);
    let once = article.clone().concat_pages();
    assert_eq!(once.clone().concat_pages(), once);
}

#[test]
fn accessors_give_the_parts() {
    let avatar = ImageValue::new("a.png".to_owned(), Some("https://example.com/a.png".to_owned()));
    let her = Arc::new(Profile::new("Her".to_owned(), avatar.clone()));
    let m = Msg::new(Role::Guest, Body::Image(avatar.clone()), Some(Arc::clone(&her)));
    assert_eq!(*m.role(), Role::Guest);
    assert_eq!(m.body(), &Body::Image(avatar.clone()));
    assert_eq!(m.profile().map(|p| p.name().clone()), Some("Her".to_owned()));
    assert!(Arc::ptr_eq(&m.profile_shared().unwrap(), &her));
    assert_eq!(her.avatar().path(), "a.png");
    assert_eq!(avatar.clone().into_path(), "a.png");
    assert_eq!(TextValue::new("x".to_owned()).into_content(), "x");
    assert_eq!(Page::new(vec![m.clone()]).into_msgs(), vec![m]);
    let tagged = 5u8.into_and_lang(Lang::ZhHans);
    assert_eq!((tagged.value, tagged.lang), (5, Lang::ZhHans));
    assert_eq!(Lang::Ko.lang(), Lang::Ko);
}

#[test]
fn ensure_step_decides_what_to_do() {
    let with_url = ImageValue::new("d/a.png".to_owned(), Some("https://example.com/a.png".to_owned()));
    let without_url = ImageValue::new("d/a.png".to_owned(), None);
    assert_eq!(with_url.ensure_step(true, true), EnsureStep::Present);
    assert_eq!(
        with_url.ensure_step(false, true),
        EnsureStep::Fetch { create_parent: true, url: "https://example.com/a.png".to_owned() }
    );
    assert_eq!(without_url.ensure_step(false, false), EnsureStep::Missing { create_parent: false });
}

#[test]
fn page_iterator_yields_its_messages() {
    let page = Page::new(vec![msg("a"), msg("b"), msg("c")]);
    let collected: Vec<Msg> = page.clone().into_iter().collect();
    assert_eq!(collected, page.clone().into_msgs());
    assert_eq!(collected, vec![msg("a"), msg("b"), msg("c")]);
}

#[test]
fn images_lists_avatars_before_bodies_page_by_page() {
    let avatar = ImageValue::new("her.png".to_owned(), None);
    let her = Arc::new(Profile::new("Her".to_owned(), avatar.clone()));
    let photo = ImageValue::new("photo.png".to_owned(), Some("https://example.com/p.png".to_owned()));
    let other = ImageValue::new("other.png".to_owned(), None);
    let article = Article::new(
        Lang::En,
        vec![
            Page::new(vec![
                msg("hello"),
                Msg::new(Role::Guest, Body::Image(photo.clone()), Some(Arc::clone(&her))),
            ]),
            Page::new(vec![]),
            Page::new(vec![Msg::new(Role::Host, Body::Image(other.clone()), None)]),
        ],
    );
    let images: Vec<ImageValue> = article.images().into_iter().cloned().collect();
    assert_eq!(images, vec![avatar, photo, other]);
    assert!(Article::new(Lang::En, vec![Page::new(vec![msg("x")])]).images().is_empty());
}

#[test]
fn concat_pages_keeps_the_images_in_order() {
    let a = ImageValue::new("a.png".to_owned(), None);
    let b = ImageValue::new("b.png".to_owned(), None);
    let her = Arc::new(Profile::new("Her".to_owned(), b.clone()));
    let article = Article::new(
        Lang::En,
        vec![
            Page::new(vec![Msg::new(Role::Guest, Body::Image(a.clone()), None)]),
            Page::new(vec![Msg::new(Role::Guest, Body::Image(a.clone()), Some(her))]),
        ],
    );
    let before: Vec<ImageValue> = article.images().into_iter().cloned().collect();
    let joined = article.concat_pages();
    let after: Vec<ImageValue> = joined.images().into_iter().cloned().collect();
    assert_eq!(before, after);
    assert_eq!(after, vec![a.clone(), b, a]);
}

#[test]
fn into_with_lang_tags_a_value() {
    let tagged = "hi".to_owned().into_with_lang(Lang::Ja);
    assert_eq!(tagged.value, "hi");
    assert_eq!(tagged.lang, Lang::Ja);
}
