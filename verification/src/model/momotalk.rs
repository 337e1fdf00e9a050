//! Export of an article to the JSON format of MomoTalk Editor
//! (<https://github.com/U1805/momotalk/>), a web chat generator in the style of
//! Blue Archive.
//!
//! Each page becomes one export; each message of a page becomes one entry of its
//! talk history, numbered from 1.

use std::num::TryFromIntError;
use vstd::prelude::*;

use crate::model::domain::{
    self, msgs_view, pages_view, AndLang, Article, Body, ImageValue, Lang, Msg, Role, SpecBody,
    SpecImageValue, SpecMsg,
};

verus! {

// ---------------------------------------------------------------------------
// Types of the export format
// ---------------------------------------------------------------------------

#[derive(Debug, Clone, PartialEq, Eq)]
pub struct MomotalkExport {
    pub talk_id: i32,
    pub talk_history: Vec<TalkHistoryItem>,
    pub select_list: Vec<SelectListItem>,
}

#[derive(Debug, Clone, PartialEq, Eq)]
pub struct TalkHistoryItem {
    pub id: i32,
    pub name: String,
    pub avatar: String,
    pub type_: Type,
    pub flag: i32,
    pub content: String,
}

/// The kind of an entry; the export format writes it as a number
/// (Student 0, Sensei 1, Story 2, Choice 3, Message 4).
#[derive(Debug, Clone, Copy, PartialEq, Eq, Hash, Structural)]
pub enum Type {
    Student,
    Sensei,
    Story,
    Choice,
    Message,
}

#[derive(Debug, Clone, PartialEq, Eq)]
pub struct SelectListItem {
    pub id: i32,
    pub name: String,
    pub avatar: String,
}

#[derive(Debug)]
pub enum MomotalkExportError {
    /// A message or page number does not fit the `i32` ids of the format.
    TryFromInt(TryFromIntError),
    /// A text was required while the body is an image.
    InvaildContentType,
}

// ---------------------------------------------------------------------------
// Models
// ---------------------------------------------------------------------------

pub struct SpecTalkHistoryItem {
    pub id: int,
    pub name: Seq<char>,
    pub avatar: Seq<char>,
    pub type_: Type,
    pub flag: int,
    pub content: Seq<char>,
}

pub struct SpecSelectListItem {
    pub id: int,
    pub name: Seq<char>,
    pub avatar: Seq<char>,
}

pub struct SpecMomotalkExport {
    pub talk_id: int,
    pub talk_history: Seq<SpecTalkHistoryItem>,
    pub select_list: Seq<SpecSelectListItem>,
}

pub enum SpecExportError {
    TryFromInt,
    InvaildContentType,
}

/// How an export ends: with a value, with an error, or at an image that has
/// no URL, for which a data URL would have to be generated from the file.
pub enum SpecOutcome<T> {
    Done(T),
    Failed(SpecExportError),
    NeedsDataUrl,
}

impl View for TalkHistoryItem {
    type V = SpecTalkHistoryItem;

    open spec fn view(&self) -> SpecTalkHistoryItem {
        SpecTalkHistoryItem {
            id: self.id as int,
            name: self.name@,
            avatar: self.avatar@,
            type_: self.type_,
            flag: self.flag as int,
            content: self.content@,
        }
    }
}

impl View for SelectListItem {
    type V = SpecSelectListItem;

    open spec fn view(&self) -> SpecSelectListItem {
        SpecSelectListItem { id: self.id as int, name: self.name@, avatar: self.avatar@ }
    }
}

impl View for MomotalkExport {
    type V = SpecMomotalkExport;

    open spec fn view(&self) -> SpecMomotalkExport {
        SpecMomotalkExport {
            talk_id: self.talk_id as int,
            talk_history: items_view(self.talk_history@),
            select_list: self.select_list@.map_values(|s: SelectListItem| s@),
        }
    }
}

impl View for MomotalkExportError {
    type V = SpecExportError;

    open spec fn view(&self) -> SpecExportError {
        match self {
            MomotalkExportError::TryFromInt(_) => SpecExportError::TryFromInt,
            MomotalkExportError::InvaildContentType => SpecExportError::InvaildContentType,
        }
    }
}

pub open spec fn items_view(items: Seq<TalkHistoryItem>) -> Seq<SpecTalkHistoryItem> {
    items.map_values(|i: TalkHistoryItem| i@)
}

pub open spec fn exports_view(exports: Seq<MomotalkExport>) -> Seq<SpecMomotalkExport> {
    exports.map_values(|e: MomotalkExport| e@)
}

/// `r` is what the outcome `o` describes.
pub open spec fn realizes_string(o: SpecOutcome<Seq<char>>, r: Result<String, MomotalkExportError>) -> bool {
    match o {
        SpecOutcome::Done(v) => r is Ok && r->Ok_0@ == v,
        SpecOutcome::Failed(e) => r is Err && r->Err_0@ == e,
        SpecOutcome::NeedsDataUrl => false,
    }
}

pub open spec fn realizes_item(
    o: SpecOutcome<SpecTalkHistoryItem>,
    r: Result<TalkHistoryItem, MomotalkExportError>,
) -> bool {
    match o {
        SpecOutcome::Done(v) => r is Ok && r->Ok_0@ == v,
        SpecOutcome::Failed(e) => r is Err && r->Err_0@ == e,
        SpecOutcome::NeedsDataUrl => false,
    }
}

pub open spec fn realizes_history(
    o: SpecOutcome<Seq<SpecTalkHistoryItem>>,
    r: Result<Vec<TalkHistoryItem>, MomotalkExportError>,
) -> bool {
    match o {
        SpecOutcome::Done(v) => r is Ok && items_view(r->Ok_0@) == v,
        SpecOutcome::Failed(e) => r is Err && r->Err_0@ == e,
        SpecOutcome::NeedsDataUrl => false,
    }
}

pub open spec fn realizes_exports(
    o: SpecOutcome<Seq<SpecMomotalkExport>>,
    r: Result<Vec<MomotalkExport>, MomotalkExportError>,
) -> bool {
    match o {
        SpecOutcome::Done(v) => r is Ok && exports_view(r->Ok_0@) == v,
        SpecOutcome::Failed(e) => r is Err && r->Err_0@ == e,
        SpecOutcome::NeedsDataUrl => false,
    }
}

// ---------------------------------------------------------------------------
// Specification of the export
// ---------------------------------------------------------------------------

/// The name of a reply entry in each language.
pub open spec fn reply_name(lang: Lang) -> Seq<char> {
    match lang {
        Lang::En => "Reply"@,
        Lang::Ja => "返信する"@,
        Lang::Ko => "답장"@,
        Lang::ZhHans => "回复"@,
        Lang::ZhHant => "回覆"@,
    }
}

/// The name of a bond story entry in each language.
pub open spec fn story_name(lang: Lang) -> Seq<char> {
    match lang {
        Lang::En => "Story Event"@,
        Lang::Ja => "絆イベント"@,
        Lang::Ko => "이야기 이벤트"@,
        Lang::ZhHans => "羁绊剧情"@,
        Lang::ZhHant => "羈絆劇情"@,
    }
}

/// The reference to an image that an entry holds: its URL.
pub open spec fn spec_image_ref(image: SpecImageValue) -> SpecOutcome<Seq<char>> {
    match image.url {
        Some(url) => SpecOutcome::Done(url),
        None => SpecOutcome::NeedsDataUrl,
    }
}

/// The content of an entry that may show an image: the text, or the image's reference.
pub open spec fn spec_content(body: SpecBody) -> SpecOutcome<Seq<char>> {
    match body {
        SpecBody::Text(content) => SpecOutcome::Done(content),
        SpecBody::Image(image) => spec_image_ref(image),
    }
}

/// The content of an entry that must be text.
pub open spec fn spec_text(body: SpecBody) -> SpecOutcome<Seq<char>> {
    match body {
        SpecBody::Text(content) => SpecOutcome::Done(content),
        SpecBody::Image(_) => SpecOutcome::Failed(SpecExportError::InvaildContentType),
    }
}

pub open spec fn spec_item(
    id: int,
    name: Seq<char>,
    avatar: Seq<char>,
    type_: Type,
    content: Seq<char>,
) -> SpecTalkHistoryItem {
    SpecTalkHistoryItem { id, name, avatar, type_, flag: 0, content }
}

/// An entry with the given fields, once its content is known.
pub open spec fn item_with_content(
    id: int,
    name: Seq<char>,
    avatar: Seq<char>,
    type_: Type,
    content: SpecOutcome<Seq<char>>,
) -> SpecOutcome<SpecTalkHistoryItem> {
    match content {
        SpecOutcome::Done(c) => SpecOutcome::Done(spec_item(id, name, avatar, type_, c)),
        SpecOutcome::Failed(e) => SpecOutcome::Failed(e),
        SpecOutcome::NeedsDataUrl => SpecOutcome::NeedsDataUrl,
    }
}

/// The entry that message `msg` becomes, numbered `id`.
pub open spec fn spec_msg_item(msg: SpecMsg, lang: Lang, id: int) -> SpecOutcome<SpecTalkHistoryItem> {
    if id > i32::MAX {
        SpecOutcome::Failed(SpecExportError::TryFromInt)
    } else {
        match msg.role {
            Role::Guest => match msg.profile {
                Some(profile) => match spec_image_ref(profile.avatar) {
                    SpecOutcome::Done(avatar) => item_with_content(
                        id,
                        profile.name,
                        avatar,
                        Type::Student,
                        spec_content(msg.body),
                    ),
                    SpecOutcome::Failed(e) => SpecOutcome::Failed(e),
                    SpecOutcome::NeedsDataUrl => SpecOutcome::NeedsDataUrl,
                },
                None => item_with_content(id, seq![], seq![], Type::Student, spec_content(msg.body)),
            },
            Role::Host => item_with_content(
                id,
                "sensei"@,
                seq![],
                Type::Sensei,
                spec_content(msg.body),
            ),
            Role::System => item_with_content(
                id,
                "systemInfo"@,
                seq![],
                Type::Message,
                spec_text(msg.body),
            ),
            Role::Reply => item_with_content(
                id,
                reply_name(lang),
                seq![],
                Type::Choice,
                spec_text(msg.body),
            ),
            Role::BondStory => item_with_content(
                id,
                story_name(lang),
                seq![],
                Type::Story,
                spec_text(msg.body),
            ),
        }
    }
}

/// The talk history of a page: its messages in order, numbered from 1; the
/// export stops at the first message that fails.
pub open spec fn spec_talk_history(msgs: Seq<SpecMsg>, lang: Lang) -> SpecOutcome<Seq<SpecTalkHistoryItem>>
    decreases msgs.len(),
{
    if msgs.len() == 0 {
        SpecOutcome::Done(seq![])
    } else {
        match spec_talk_history(msgs.drop_last(), lang) {
            SpecOutcome::Done(items) => match spec_msg_item(msgs.last(), lang, msgs.len() as int) {
                SpecOutcome::Done(item) => SpecOutcome::Done(items.push(item)),
                SpecOutcome::Failed(e) => SpecOutcome::Failed(e),
                SpecOutcome::NeedsDataUrl => SpecOutcome::NeedsDataUrl,
            },
            other => other,
        }
    }
}

/// Once a prefix of the messages stops the export, the whole stops the same way.
pub proof fn lemma_talk_history_stops(msgs: Seq<SpecMsg>, lang: Lang, k: int)
    requires
        0 <= k <= msgs.len(),
        !(spec_talk_history(msgs.take(k), lang) is Done),
    ensures
        spec_talk_history(msgs, lang) == spec_talk_history(msgs.take(k), lang),
    decreases msgs.len(),
{
    if k == msgs.len() {
        assert(msgs.take(k) =~= msgs);
    } else {
        assert(msgs.drop_last().take(k) =~= msgs.take(k));
        lemma_talk_history_stops(msgs.drop_last(), lang, k);
    }
}

// ---------------------------------------------------------------------------
// Conversions of bodies and images
// ---------------------------------------------------------------------------

impl ImageValue {
    /// The reference to this image in an export: its URL. Generating a data URL
    /// from the file, for an image without URL, is not available.
    pub fn url_or_data_url(&self) -> (r: Result<String, MomotalkExportError>)
        requires
            self.url is Some,
        ensures
            realizes_string(spec_image_ref(self@), r),
    {
        let url = self.url.as_ref().unwrap();
        Ok(url.clone())
    }
}

impl Body {
    /// The text of a text body; an image body is refused.
    pub fn try_into_text(self) -> (r: Result<String, MomotalkExportError>)
        ensures
            realizes_string(spec_text(self@), r),
    {
        match self {
            Body::Text(text) => Ok(text.into_content()),
            Body::Image(_) => Err(MomotalkExportError::InvaildContentType),
        }
    }

    /// The text of a text body, or the reference to the image of an image body.
    pub fn try_into_content(self) -> (r: Result<String, MomotalkExportError>)
        requires
            !(spec_content(self@) is NeedsDataUrl),
        ensures
            realizes_string(spec_content(self@), r),
    {
        match self {
            Body::Text(text) => Ok(text.into_content()),
            Body::Image(image) => image.url_or_data_url(),
        }
    }
}

// ---------------------------------------------------------------------------
// Conversion of messages
// ---------------------------------------------------------------------------

/// The entry that a message becomes, numbered `id`.
fn export_msg(msg: Msg, lang: Lang, id: i32) -> (r: Result<TalkHistoryItem, MomotalkExportError>)
    requires
        !(spec_msg_item(msg@, lang, id as int) is NeedsDataUrl),
    ensures
        realizes_item(spec_msg_item(msg@, lang, id as int), r),
{
    let Msg { role, body, profile } = msg;
    let name: String;
    let avatar: String;
    let type_: Type;
    let content: String;
    match role {
        Role::Guest => {
            type_ = Type::Student;
            match profile {
                Some(profile) => {
                    name = profile.name.clone();
                    avatar = match profile.avatar.url_or_data_url() {
                        Ok(a) => a,
                        Err(e) => return Err(e),
                    };
                },
                None => {
                    name = String::new();
                    avatar = String::new();
                },
            }
            content = match body.try_into_content() {
                Ok(c) => c,
                Err(e) => return Err(e),
            };
        },
        Role::Host => {
            type_ = Type::Sensei;
            name = "sensei".to_owned();
            avatar = String::new();
            content = match body.try_into_content() {
                Ok(c) => c,
                Err(e) => return Err(e),
            };
        },
        Role::System => {
            type_ = Type::Message;
            name = "systemInfo".to_owned();
            avatar = String::new();
            content = match body.try_into_text() {
                Ok(c) => c,
                Err(e) => return Err(e),
            };
        },
        Role::Reply => {
            type_ = Type::Choice;
            name = match lang {
                Lang::En => "Reply",
                Lang::Ja => "返信する",
                Lang::Ko => "답장",
                Lang::ZhHans => "回复",
                Lang::ZhHant => "回覆",
            }.to_owned();
            avatar = String::new();
            content = match body.try_into_text() {
                Ok(c) => c,
                Err(e) => return Err(e),
            };
        },
        Role::BondStory => {
            type_ = Type::Story;
            name = match lang {
                Lang::En => "Story Event",
                Lang::Ja => "絆イベント",
                Lang::Ko => "이야기 이벤트",
                Lang::ZhHans => "羁绊剧情",
                Lang::ZhHant => "羈絆劇情",
            }.to_owned();
            avatar = String::new();
            content = match body.try_into_text() {
                Ok(c) => c,
                Err(e) => return Err(e),
            };
        },
    }
    Ok(TalkHistoryItem { id, name, avatar, type_, flag: 0, content })
}

impl TalkHistoryItem {
    /// The talk history of the messages of a page, in the page's language:
    /// one entry per message, in order, numbered from 1. The first message that
    /// cannot be exported decides the error.
    pub fn try_from_msgs(msgs: AndLang<Vec<Msg>>) -> (r: Result<Vec<TalkHistoryItem>, MomotalkExportError>)
        requires
            !(spec_talk_history(msgs_view(msgs.value@), msgs.lang) is NeedsDataUrl),
        ensures
            realizes_history(spec_talk_history(msgs_view(msgs.value@), msgs.lang), r),
    {
        let AndLang { value, lang } = msgs;
        let ghost mv = msgs_view(value@);
        let mut items: Vec<TalkHistoryItem> = Vec::new();
        let mut n: usize = 0;
        proof {
            assert(mv.take(0) =~= Seq::<SpecMsg>::empty());
            assert(items_view(items@) =~= Seq::<SpecTalkHistoryItem>::empty());
        }
        for msg in it: value
            invariant
                mv == msgs_view(it.seq()),
                mv == msgs_view(msgs.value@),
                lang == msgs.lang,
                n == it.index(),
                n <= mv.len(),
                !(spec_talk_history(mv, lang) is NeedsDataUrl),
                spec_talk_history(mv.take(n as int), lang) == SpecOutcome::Done(items_view(items@)),
        {
            let ghost prefix = mv.take(n as int);
            let ghost next = mv.take(n + 1);
            proof {
                assert(next.drop_last() =~= prefix);
                assert(next.last() == mv[n as int]);
                assert(next.len() == n + 1);
            }
            let id = match i32::try_from(n + 1) {
                Ok(id) => id,
                Err(e) => {
                    proof {
                        lemma_talk_history_stops(mv, lang, n + 1);
                    }
                    return Err(MomotalkExportError::TryFromInt(e));
                },
            };
            proof {
                if spec_msg_item(mv[n as int], lang, n + 1) is NeedsDataUrl {
                    lemma_talk_history_stops(mv, lang, n + 1);
                }
            }
            match export_msg(msg, lang, id) {
                Ok(item) => {
                    let ghost before = items@;
                    items.push(item);
                    proof {
                        assert(items_view(items@) =~= items_view(before).push(item@));
                    }
                },
                Err(e) => {
                    proof {
                        lemma_talk_history_stops(mv, lang, n + 1);
                    }
                    return Err(e);
                },
            }
            n = n + 1;
        }
        proof {
            assert(mv.take(mv.len() as int) =~= mv);
        }
        Ok(items)
    }
}

// ---------------------------------------------------------------------------
// Conversion of articles
// ---------------------------------------------------------------------------

/// The export of page number `id` from its talk history.
pub open spec fn spec_export_of(id: int, history: SpecOutcome<Seq<SpecTalkHistoryItem>>) -> SpecOutcome<SpecMomotalkExport> {
    match history {
        SpecOutcome::Done(h) => SpecOutcome::Done(
            SpecMomotalkExport { talk_id: id, talk_history: h, select_list: seq![] },
        ),
        SpecOutcome::Failed(e) => SpecOutcome::Failed(e),
        SpecOutcome::NeedsDataUrl => SpecOutcome::NeedsDataUrl,
    }
}

/// The exports of the first pages, one per page, numbered from 1; the export
/// stops at the first page that fails.
pub open spec fn spec_page_exports(pages: Seq<Seq<SpecMsg>>, lang: Lang) -> SpecOutcome<Seq<SpecMomotalkExport>>
    decreases pages.len(),
{
    if pages.len() == 0 {
        SpecOutcome::Done(seq![])
    } else {
        match spec_page_exports(pages.drop_last(), lang) {
            SpecOutcome::Done(exports) => match spec_export_of(
                pages.len() as int,
                spec_talk_history(pages.last(), lang),
            ) {
                SpecOutcome::Done(e) => SpecOutcome::Done(exports.push(e)),
                SpecOutcome::Failed(e) => SpecOutcome::Failed(e),
                SpecOutcome::NeedsDataUrl => SpecOutcome::NeedsDataUrl,
            },
            other => other,
        }
    }
}

/// The exports of an article: refused at once when the pages cannot be
/// numbered by `i32`, else one export per page.
pub open spec fn spec_exports(article: domain::SpecArticle) -> SpecOutcome<Seq<SpecMomotalkExport>> {
    if article.pages.len() > i32::MAX {
        SpecOutcome::Failed(SpecExportError::TryFromInt)
    } else {
        spec_page_exports(article.pages, article.lang)
    }
}

/// Once a prefix of the pages stops the export, the whole stops the same way.
pub proof fn lemma_page_exports_stop(pages: Seq<Seq<SpecMsg>>, lang: Lang, k: int)
    requires
        0 <= k <= pages.len(),
        !(spec_page_exports(pages.take(k), lang) is Done),
    ensures
        spec_page_exports(pages, lang) == spec_page_exports(pages.take(k), lang),
    decreases pages.len(),
{
    if k == pages.len() {
        assert(pages.take(k) =~= pages);
    } else {
        assert(pages.drop_last().take(k) =~= pages.take(k));
        lemma_page_exports_stop(pages.drop_last(), lang, k);
    }
}

impl MomotalkExport {
    /// The exports of an article, one per page, numbered from 1, each with an
    /// empty select list.
    pub fn try_from_article(article: Article) -> (r: Result<Vec<MomotalkExport>, MomotalkExportError>)
        requires
            !(spec_exports(article@) is NeedsDataUrl),
        ensures
            realizes_exports(spec_exports(article@), r),
    {
        let lang = article.lang;
        let pages = article.into_pages();
        let ghost pv = pages_view(pages@);
        if let Err(e) = i32::try_from(pages.len()) {
            return Err(MomotalkExportError::TryFromInt(e));
        }
        let mut exports: Vec<MomotalkExport> = Vec::new();
        let mut n: usize = 0;
        proof {
            assert(pv.take(0) =~= Seq::<Seq<SpecMsg>>::empty());
            assert(exports_view(exports@) =~= Seq::<SpecMomotalkExport>::empty());
        }
        for page in it: pages
            invariant
                pv == pages_view(it.seq()),
                pv == article@.pages,
                lang == article.lang,
                pv.len() <= i32::MAX,
                n == it.index(),
                n <= pv.len(),
                !(spec_page_exports(pv, lang) is NeedsDataUrl),
                spec_page_exports(pv.take(n as int), lang) == SpecOutcome::Done(exports_view(exports@)),
        {
            let ghost next = pv.take(n + 1);
            proof {
                assert(next.drop_last() =~= pv.take(n as int));
                assert(next.last() == pv[n as int]);
                if spec_talk_history(pv[n as int], lang) is NeedsDataUrl {
                    lemma_page_exports_stop(pv, lang, n + 1);
                }
            }
            let talk_id = (n + 1) as i32;
            let talk_history = match TalkHistoryItem::try_from_msgs(AndLang { value: page.msgs, lang }) {
                Ok(h) => h,
                Err(e) => {
                    proof {
                        lemma_page_exports_stop(pv, lang, n + 1);
                    }
                    return Err(e);
                },
            };
            let export = MomotalkExport { talk_id, talk_history, select_list: Vec::new() };
            let ghost before = exports@;
            exports.push(export);
            proof {
                assert(export@.select_list =~= Seq::<SpecSelectListItem>::empty());
                assert(exports_view(exports@) =~= exports_view(before).push(export@));
            }
            n = n + 1;
        }
        proof {
            assert(pv.take(pv.len() as int) =~= pv);
        }
        Ok(exports)
    }
}

// ---------------------------------------------------------------------------
// Where an export stops
// ---------------------------------------------------------------------------

/// How an export would end, without computing it.
#[derive(Debug, Clone, Copy, PartialEq, Eq, Structural)]
pub enum ExportEnd {
    Done,
    Failed,
    NeedsDataUrl,
}

pub open spec fn end_of<T>(o: SpecOutcome<T>) -> ExportEnd {
    match o {
        SpecOutcome::Done(_) => ExportEnd::Done,
        SpecOutcome::Failed(_) => ExportEnd::Failed,
        SpecOutcome::NeedsDataUrl => ExportEnd::NeedsDataUrl,
    }
}

fn image_ref_end(image: &ImageValue) -> (r: ExportEnd)
    ensures
        r == end_of(spec_image_ref(image@)),
{
    if image.url.is_some() {
        ExportEnd::Done
    } else {
        ExportEnd::NeedsDataUrl
    }
}

fn content_end(body: &Body) -> (r: ExportEnd)
    ensures
        r == end_of(spec_content(body@)),
{
    match body {
        Body::Text(_) => ExportEnd::Done,
        Body::Image(image) => image_ref_end(image),
    }
}

fn text_end(body: &Body) -> (r: ExportEnd)
    ensures
        r == end_of(spec_text(body@)),
{
    match body {
        Body::Text(_) => ExportEnd::Done,
        Body::Image(_) => ExportEnd::Failed,
    }
}

/// How the entry of a message numbered `id` would end.
fn msg_end(msg: &Msg, lang: Lang, id: usize) -> (r: ExportEnd)
    ensures
        r == end_of(spec_msg_item(msg@, lang, id as int)),
{
    if id > 0x7fff_ffff {
        return ExportEnd::Failed;
    }
    match msg.role {
        Role::Guest => {
            match &msg.profile {
                Some(profile) => {
                    let avatar = image_ref_end(&profile.avatar);
                    if avatar != ExportEnd::Done {
                        return avatar;
                    }
                },
                None => {},
            }
            content_end(&msg.body)
        },
        Role::Host => content_end(&msg.body),
        _ => text_end(&msg.body),
    }
}

/// How the talk history of some messages would end.
fn talk_history_end(msgs: &Vec<Msg>, lang: Lang) -> (r: ExportEnd)
    ensures
        r == end_of(spec_talk_history(msgs_view(msgs@), lang)),
{
    let ghost mv = msgs_view(msgs@);
    let mut n: usize = 0;
    proof {
        assert(mv.take(0) =~= Seq::<SpecMsg>::empty());
    }
    while n < msgs.len()
        invariant
            mv == msgs_view(msgs@),
            n <= msgs.len(),
            spec_talk_history(mv.take(n as int), lang) is Done,
        decreases msgs.len() - n,
    {
        let end = msg_end(&msgs[n], lang, n + 1);
        proof {
            let next = mv.take(n + 1);
            assert(next.drop_last() =~= mv.take(n as int));
            assert(next.last() == mv[n as int]);
            if end != ExportEnd::Done {
                lemma_talk_history_stops(mv, lang, n + 1);
            }
        }
        if end != ExportEnd::Done {
            return end;
        }
        n = n + 1;
    }
    proof {
        assert(mv.take(n as int) =~= mv);
    }
    ExportEnd::Done
}

impl TalkHistoryItem {
    /// Whether exporting these messages would reach an image without URL,
    /// for which a data URL would have to be generated.
    pub fn needs_data_url(msgs: &AndLang<Vec<Msg>>) -> (r: bool)
        ensures
            r == spec_talk_history(msgs_view(msgs.value@), msgs.lang) is NeedsDataUrl,
    {
        talk_history_end(&msgs.value, msgs.lang) == ExportEnd::NeedsDataUrl
    }
}

impl MomotalkExport {
    /// Whether exporting this article would reach an image without URL,
    /// for which a data URL would have to be generated.
    pub fn needs_data_url(article: &Article) -> (r: bool)
        ensures
            r == spec_exports(article@) is NeedsDataUrl,
    {
        let pages = &article.pages;
        let ghost pv = pages_view(pages@);
        if pages.len() > 0x7fff_ffff {
            return false;
        }
        let mut n: usize = 0;
        proof {
            assert(pv.take(0) =~= Seq::<Seq<SpecMsg>>::empty());
        }
        while n < pages.len()
            invariant
                pv == pages_view(pages@),
                pv == article@.pages,
                pv.len() <= i32::MAX,
                n <= pages.len(),
                spec_page_exports(pv.take(n as int), article.lang) is Done,
            decreases pages.len() - n,
        {
            let end = talk_history_end(&pages[n].msgs, article.lang);
            proof {
                let next = pv.take(n + 1);
                assert(next.drop_last() =~= pv.take(n as int));
                assert(next.last() == pv[n as int]);
                if end != ExportEnd::Done {
                    lemma_page_exports_stop(pv, article.lang, n + 1);
                }
            }
            if end != ExportEnd::Done {
                return end == ExportEnd::NeedsDataUrl;
            }
            n = n + 1;
        }
        proof {
            assert(pv.take(n as int) =~= pv);
        }
        false
    }
}

// ---------------------------------------------------------------------------
// Laws
// ---------------------------------------------------------------------------

/// A successful talk history has one entry per message, in order: entry `i`
/// is numbered `i + 1`, has flag 0, and is the entry of message `i`.
pub proof fn lemma_talk_history_numbered(msgs: Seq<SpecMsg>, lang: Lang)
    requires
        spec_talk_history(msgs, lang) is Done,
    ensures
        ({
            let items = spec_talk_history(msgs, lang)->Done_0;
            &&& items.len() == msgs.len()
            &&& forall|i: int|
                0 <= i < items.len() ==> {
                    &&& (#[trigger] items[i]).id == i + 1
                    &&& items[i].flag == 0
                    &&& spec_msg_item(msgs[i], lang, i + 1) == SpecOutcome::Done(items[i])
                }
        }),
    decreases msgs.len(),
{
    if msgs.len() > 0 {
        let prefix = msgs.drop_last();
        lemma_talk_history_numbered(prefix, lang);
        let items = spec_talk_history(msgs, lang)->Done_0;
        let before = spec_talk_history(prefix, lang)->Done_0;
        assert forall|i: int| 0 <= i < items.len() implies {
            &&& (#[trigger] items[i]).id == i + 1
            &&& items[i].flag == 0
            &&& spec_msg_item(msgs[i], lang, i + 1) == SpecOutcome::Done(items[i])
        } by {
            if i < before.len() {
                assert(items[i] == before[i]);
                assert(prefix[i] == msgs[i]);
            }
        }
    }
}

/// A successful export of an article has one export per page, in order:
/// export `i` has talk id `i + 1`, the talk history of page `i`, and an empty
/// select list.
pub proof fn lemma_exports_numbered(article: domain::SpecArticle)
    requires
        spec_exports(article) is Done,
    ensures
        ({
            let exports = spec_exports(article)->Done_0;
            &&& exports.len() == article.pages.len()
            &&& forall|i: int|
                0 <= i < exports.len() ==> {
                    &&& (#[trigger] exports[i]).talk_id == i + 1
                    &&& exports[i].select_list.len() == 0
                    &&& spec_talk_history(article.pages[i], article.lang) == SpecOutcome::Done(
                        exports[i].talk_history,
                    )
                }
        }),
{
    lemma_page_exports_numbered(article.pages, article.lang);
}

proof fn lemma_page_exports_numbered(pages: Seq<Seq<SpecMsg>>, lang: Lang)
    requires
        spec_page_exports(pages, lang) is Done,
    ensures
        ({
            let exports = spec_page_exports(pages, lang)->Done_0;
            &&& exports.len() == pages.len()
            &&& forall|i: int|
                0 <= i < exports.len() ==> {
                    &&& (#[trigger] exports[i]).talk_id == i + 1
                    &&& exports[i].select_list.len() == 0
                    &&& spec_talk_history(pages[i], lang) == SpecOutcome::Done(
                        exports[i].talk_history,
                    )
                }
        }),
    decreases pages.len(),
{
    if pages.len() > 0 {
        let prefix = pages.drop_last();
        lemma_page_exports_numbered(prefix, lang);
        let exports = spec_page_exports(pages, lang)->Done_0;
        let before = spec_page_exports(prefix, lang)->Done_0;
        assert forall|i: int| 0 <= i < exports.len() implies {
            &&& (#[trigger] exports[i]).talk_id == i + 1
            &&& exports[i].select_list.len() == 0
            &&& spec_talk_history(pages[i], lang) == SpecOutcome::Done(exports[i].talk_history)
        } by {
            if i < before.len() {
                assert(exports[i] == before[i]);
                assert(prefix[i] == pages[i]);
            }
        }
    }
}

/// Exporting an article whose pages were joined into one (as `concat_pages`
/// does) gives a single export, numbered 1, whose talk history is that of all
/// messages of the article in order; it fails, or needs a data URL, exactly
/// when that talk history does.
pub proof fn lemma_concatenated_export(article: domain::SpecArticle)
    ensures
        ({
            let joined = domain::SpecArticle { lang: article.lang, pages: seq![article.pages.flatten()] };
            let history = spec_talk_history(article.pages.flatten(), article.lang);
            spec_exports(joined) == match history {
                SpecOutcome::Done(h) => SpecOutcome::Done(
                    seq![SpecMomotalkExport { talk_id: 1, talk_history: h, select_list: seq![] }],
                ),
                SpecOutcome::Failed(e) => SpecOutcome::Failed(e),
                SpecOutcome::NeedsDataUrl => SpecOutcome::NeedsDataUrl,
            }
        }),
{
    let pages = seq![article.pages.flatten()];
    let joined = domain::SpecArticle { lang: article.lang, pages };
    assert(pages.len() == 1);
    assert(pages.drop_last() =~= Seq::<Seq<SpecMsg>>::empty());
    assert(spec_page_exports(pages.drop_last(), article.lang) == SpecOutcome::<
        Seq<SpecMomotalkExport>,
    >::Done(seq![]));
    assert(pages.last() == article.pages.flatten());
    match spec_talk_history(article.pages.flatten(), article.lang) {
        SpecOutcome::Done(h) => {
            let e = SpecMomotalkExport { talk_id: 1, talk_history: h, select_list: seq![] };
            assert(Seq::<SpecMomotalkExport>::empty().push(e) =~= seq![e]);
        },
        _ => {},
    }
    assert(spec_exports(joined) == spec_page_exports(pages, article.lang));
}

/// What an exported entry holds, whatever the message: its number, flag 0,
/// the content that the message's own body gives (the text, or the URL of the
/// image that the body shows), and the name, avatar and type that the role
/// gives: a guest speaks with the name and avatar URL of its profile (none
/// without a profile), the host as `sensei`, the system as `systemInfo`, and a
/// reply or a bond story with its name in the article's language. A message
/// that only text may carry does carry text.
pub proof fn lemma_entry_fields(msg: SpecMsg, lang: Lang, id: int)
    requires
        spec_msg_item(msg, lang, id) is Done,
    ensures
        ({
            let item = spec_msg_item(msg, lang, id)->Done_0;
            &&& item.id == id
            &&& item.flag == 0
            &&& id <= i32::MAX
            &&& match msg.body {
                SpecBody::Text(t) => item.content == t,
                SpecBody::Image(i) => i.url == Some(item.content),
            }
            &&& match msg.role {
                Role::Guest => item.type_ == Type::Student && match msg.profile {
                    Some(p) => item.name == p.name && p.avatar.url == Some(item.avatar),
                    None => item.name == Seq::<char>::empty() && item.avatar == Seq::<char>::empty(),
                },
                Role::Host => item.type_ == Type::Sensei && item.name == "sensei"@
                    && item.avatar == Seq::<char>::empty(),
                Role::System => item.type_ == Type::Message && item.name == "systemInfo"@
                    && item.avatar == Seq::<char>::empty() && msg.body is Text,
                Role::Reply => item.type_ == Type::Choice && item.name == reply_name(lang)
                    && item.avatar == Seq::<char>::empty() && msg.body is Text,
                Role::BondStory => item.type_ == Type::Story && item.name == story_name(lang)
                    && item.avatar == Seq::<char>::empty() && msg.body is Text,
            }
        }),
{
}

/// The entries of a talk history are those of its messages: entry `i` holds
/// what `lemma_entry_fields` says of message `i`, numbered `i + 1`, in the
/// language given.
pub proof fn lemma_talk_history_entries(msgs: Seq<SpecMsg>, lang: Lang, i: int)
    requires
        spec_talk_history(msgs, lang) is Done,
        0 <= i < msgs.len(),
    ensures
        spec_talk_history(msgs, lang)->Done_0.len() == msgs.len(),
        spec_msg_item(msgs[i], lang, i + 1) == SpecOutcome::Done(
            spec_talk_history(msgs, lang)->Done_0[i],
        ),
{
    lemma_talk_history_numbered(msgs, lang);
    let items = spec_talk_history(msgs, lang)->Done_0;
    assert(items[i].id == i + 1);
}

} // verus!
