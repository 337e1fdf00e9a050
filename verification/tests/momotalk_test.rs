use std::sync::Arc;

use luatalk::momotalk::{MomotalkExport, MomotalkExportError, TalkHistoryItem, Type};
use luatalk::{Article, Body, ImageValue, IntoAndLang, Lang, Msg, Page, Profile, Role, TextValue};

fn text(content: &str) -> Body {
    Body::Text(TextValue::new(content.to_owned()))
}

fn image(path: &str, url: Option<&str>) -> Body {
    Body::Image(ImageValue::new(path.to_owned(), url.map(str::to_owned)))
}

fn item(id: i32, name: &str, avatar: &str, type_: Type, content: &str) -> TalkHistoryItem {
    TalkHistoryItem {
        id,
        name: name.to_owned(),
        avatar: avatar.to_owned(),
        type_,
        flag: 0,
        content: content.to_owned(),
    }
}

fn her(path: &str) -> Arc<Profile> {
    Arc::new(Profile::new(
        "Her".to_owned(),
        ImageValue::new(path.to_owned(), Some("https://example.com/image.webp".to_owned())),
    ))
}

#[test]
fn try_into_content() {
    let text_body = text("Hello");
    assert_eq!(text_body.try_into_content().unwrap(), "Hello");

    let image_body = image("/path/to/image.webp", Some("https://example.com/image.webp"));
    assert_eq!(image_body.try_into_content().unwrap(), "https://example.com/image.webp");
}

#[test]
fn try_into_text() {
    let text_body = Body::Text(TextValue { content: "Hello".to_owned() });
    assert_eq!(text_body.try_into_text().unwrap(), "Hello");

    let image_body = image("/path/to/image.webp", Some("https://example.com/image.webp"));
    assert!(image_body.try_into_text().is_err());
}

#[test]
fn try_from_and_lang_msg_list() {
    let her = her("/path/to/image.webp");
    let msgs = vec![
        Msg::new(Role::Guest, text("Example guest message"), Some(Arc::clone(&her))),
        Msg::new(
            Role::Guest,
            image("/path/to/image.webp", Some("https://example.com/image.webp")),
            Some(Arc::clone(&her)),
        ),
        Msg::new(Role::Host, text("Example host message"), None),
        Msg::new(
            Role::Host,
            image("/path/to/image.webp", Some("https://example.com/image.webp")),
            None,
        ),
        Msg::new(Role::System, text("Example system message"), None),
        Msg::new(Role::Reply, text("Example reply message"), None),
        Msg::new(Role::BondStory, text("Example bond story message"), None),
    ];

    let got: Vec<TalkHistoryItem> = TalkHistoryItem::try_from_msgs(msgs.into_and_lang(Lang::En)).unwrap();

    let expected = vec![
        item(1, "Her", "https://example.com/image.webp", Type::Student, "Example guest message"),
        item(2, "Her", "https://example.com/image.webp", Type::Student, "https://example.com/image.webp"),
        item(3, "sensei", "", Type::Sensei, "Example host message"),
        item(4, "sensei", "", Type::Sensei, "https://example.com/image.webp"),
        item(5, "systemInfo", "", Type::Message, "Example system message"),
        item(6, "Reply", "", Type::Choice, "Example reply message"),
        item(7, "Story Event", "", Type::Story, "Example bond story message"),
    ];

    assert_eq!(got, expected);
}

#[test]
fn try_from_article() {
    let her = her("/path/to/image");
    let article = Article::new(
        Lang::En,
        vec![
            Page::new(vec![
                Msg::new(Role::Guest, text("Example guest message"), Some(Arc::clone(&her))),
                Msg::new(
                    Role::Guest,
                    image("/path/to/image.webp", Some("https://example.com/image.webp")),
                    Some(Arc::clone(&her)),
                ),
                Msg::new(Role::Host, text("Example host message"), None),
                Msg::new(
                    Role::Host,
                    image("/path/to/image", Some("https://example.com/image.webp")),
                    None,
                ),
            ]),
            Page::new(vec![
                Msg::new(Role::System, text("Example system message"), None),
                Msg::new(Role::Reply, text("Example reply message"), None),
                Msg::new(Role::BondStory, text("Example bond story message"), None),
            ]),
        ],
    );

    let got: Vec<MomotalkExport> = MomotalkExport::try_from_article(article).unwrap();

    let expected = vec![
        MomotalkExport {
            talk_id: 1,
            talk_history: vec![
                item(1, "Her", "https://example.com/image.webp", Type::Student, "Example guest message"),
                item(2, "Her", "https://example.com/image.webp", Type::Student, "https://example.com/image.webp"),
                item(3, "sensei", "", Type::Sensei, "Example host message"),
                item(4, "sensei", "", Type::Sensei, "https://example.com/image.webp"),
            ],
            select_list: Vec::new(),
        },
        MomotalkExport {
            talk_id: 2,
            talk_history: vec![
                item(1, "systemInfo", "", Type::Message, "Example system message"),
                item(2, "Reply", "", Type::Choice, "Example reply message"),
                item(3, "Story Event", "", Type::Story, "Example bond story message"),
            ],
            select_list: Vec::new(),
        },
    ];

    assert_eq!(got, expected);
}

#[test]
fn reply_and_story_names_follow_the_language() {
    let cases = [
        (Lang::En, "Reply", "Story Event"),
        (Lang::Ja, "返信する", "絆イベント"),
        (Lang::Ko, "답장", "이야기 이벤트"),
        (Lang::ZhHans, "回复", "羁绊剧情"),
        (Lang::ZhHant, "回覆", "羈絆劇情"),
    ];
    for (lang, reply, story) in cases {
        let msgs = vec![
            Msg::new(Role::Reply, text("r"), None),
            Msg::new(Role::BondStory, text("s"), None),
        ];
        let got = TalkHistoryItem::try_from_msgs(msgs.into_and_lang(lang)).unwrap();
        assert_eq!(got[0].name, reply);
        assert_eq!(got[0].type_, Type::Choice);
        assert_eq!(got[1].name, story);
        assert_eq!(got[1].type_, Type::Story);
    }
}

#[test]
fn guest_without_profile_has_empty_name_and_avatar() {
    let msgs = vec![Msg::new(Role::Guest, text("hi"), None)];
    let got = TalkHistoryItem::try_from_msgs(msgs.into_and_lang(Lang::En)).unwrap();
    assert_eq!(got, vec![item(1, "", "", Type::Student, "hi")]);
}

#[test]
fn image_where_text_is_required_is_refused() {
    for role in [Role::System, Role::Reply, Role::BondStory] {
        let msgs = vec![
            Msg::new(Role::Host, text("fine"), None),
            Msg::new(role, image("a.png", Some("https://example.com/a.png")), None),
        ];
        let got = TalkHistoryItem::try_from_msgs(msgs.into_and_lang(Lang::En));
        assert!(matches!(got, Err(MomotalkExportError::InvaildContentType)));
    }
}

#[test]
fn first_failing_page_decides_the_error() {
    let article = Article::new(
        Lang::Ko,
        vec![
            Page::new(vec![Msg::new(Role::System, image("a.png", Some("u")), None)]),
            Page::new(vec![Msg::new(Role::Host, image("b.png", None), None)]),
        ],
    );
    assert!(!MomotalkExport::needs_data_url(&article));
    let got = MomotalkExport::try_from_article(article);
    assert!(matches!(got, Err(MomotalkExportError::InvaildContentType)));
}

#[test]
fn image_without_url_needs_a_data_url() {
    let msgs = vec![Msg::new(Role::Host, image("b.png", None), None)].into_and_lang(Lang::En);
    assert!(TalkHistoryItem::needs_data_url(&msgs));
    let avatarless = Arc::new(Profile::new("Her".to_owned(), ImageValue::new("a.png".to_owned(), None)));
    let msgs = vec![Msg::new(Role::Guest, text("hi"), Some(avatarless))].into_and_lang(Lang::En);
    assert!(TalkHistoryItem::needs_data_url(&msgs));
    let msgs = vec![Msg::new(Role::System, image("b.png", None), None)].into_and_lang(Lang::En);
    assert!(!TalkHistoryItem::needs_data_url(&msgs));
}

#[test]
fn article_without_pages_exports_nothing() {
    let got = MomotalkExport::try_from_article(Article::new(Lang::En, Vec::new())).unwrap();
    assert!(got.is_empty());
}

#[test]
fn concatenated_article_exports_once() {
    let article = Article::new(
        Lang::En,
        vec![
            Page::new(vec![Msg::new(Role::Host, text("a"), None)]),
            Page::new(vec![Msg::new(Role::Host, text("b"), None)]),
        ],
    )
    .concat_pages();
    let got = MomotalkExport::try_from_article(article).unwrap();
    assert_eq!(got.len(), 1);
    assert_eq!(got[0].talk_id, 1);
    assert_eq!(
        got[0].talk_history,
        vec![item(1, "sensei", "", Type::Sensei, "a"), item(2, "sensei", "", Type::Sensei, "b")]
    );
}
