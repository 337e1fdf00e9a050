//! The domain model of an article: pages of messages, each spoken in a role.

use std::sync::Arc;
use vstd::prelude::*;

verus! {

// ---------------------------------------------------------------------------
// Mathematical model of the domain types
// ---------------------------------------------------------------------------

/// The model of an image: where it is stored locally, and where it may be fetched.
pub struct SpecImageValue {
    pub path: Seq<char>,
    pub url: Option<Seq<char>>,
}

/// The model of a message body.
pub enum SpecBody {
    Text(Seq<char>),
    Image(SpecImageValue),
}

/// The model of a speaker's profile.
pub struct SpecProfile {
    pub name: Seq<char>,
    pub avatar: SpecImageValue,
}

/// The model of a message.
pub struct SpecMsg {
    pub role: Role,
    pub body: SpecBody,
    pub profile: Option<SpecProfile>,
}

/// The model of an article: its language and its pages, each a sequence of messages.
pub struct SpecArticle {
    pub lang: Lang,
    pub pages: Seq<Seq<SpecMsg>>,
}

/// The characters of an optional string.
pub open spec fn opt_str_view(o: Option<String>) -> Option<Seq<char>> {
    match o {
        Some(s) => Some(s@),
        None => None,
    }
}

/// The models of a sequence of messages.
pub open spec fn msgs_view(msgs: Seq<Msg>) -> Seq<SpecMsg> {
    msgs.map_values(|m: Msg| m@)
}

/// The models of a sequence of pages.
pub open spec fn pages_view(pages: Seq<Page>) -> Seq<Seq<SpecMsg>> {
    pages.map_values(|p: Page| p@)
}

// ---------------------------------------------------------------------------
// Languages
// ---------------------------------------------------------------------------

/// Something that is written in a language.
pub trait InLang {
    fn lang(&self) -> Lang;
}

#[derive(Debug, Clone, Copy, PartialEq, Eq, Hash, Structural)]
pub enum Lang {
    En,
    Ja,
    Ko,
    ZhHans,
    ZhHant,
}

impl InLang for Lang {
    fn lang(&self) -> (r: Lang)
        ensures
            r == *self,
    {
        *self
    }
}

/// Value with a language tag
pub struct AndLang<T> {
    pub value: T,
    pub lang: Lang,
}

/// Tags a value with a language.
pub trait IntoAndLang: Sized {
    fn into_and_lang(self, lang: Lang) -> AndLang<Self>;
}

impl<T> IntoAndLang for T {
    fn into_and_lang(self, lang: Lang) -> (r: AndLang<T>)
        ensures
            r.value == self,
            r.lang == lang,
    {
        AndLang { value: self, lang }
    }
}

/// Tags a value with a language.
pub trait IntoWithLang: Sized {
    fn into_with_lang(self, lang: Lang) -> AndLang<Self>;
}

impl<T> IntoWithLang for T {
    fn into_with_lang(self, lang: Lang) -> (r: AndLang<T>)
        ensures
            r.value == self,
            r.lang == lang,
    {
        AndLang { value: self, lang }
    }
}

// ---------------------------------------------------------------------------
// Article
// ---------------------------------------------------------------------------

#[derive(Debug, Clone, PartialEq, Eq)]
pub struct Article {
    pub lang: Lang,
    pub pages: Vec<Page>,
}

impl View for Article {
    type V = SpecArticle;

    open spec fn view(&self) -> SpecArticle {
        SpecArticle { lang: self.lang, pages: pages_view(self.pages@) }
    }
}

impl InLang for Article {
    fn lang(&self) -> (r: Lang)
        ensures
            r == self.lang,
    {
        self.lang
    }
}

impl Article {
    /// Builds an article from its language and pages.
    pub fn new(lang: Lang, pages: Vec<Page>) -> (r: Article)
        ensures
            r.lang == lang,
            r.pages == pages,
    {
        Article { lang, pages }
    }

    pub fn pages(&self) -> (r: &Vec<Page>)
        ensures
            r == &self.pages,
    {
        &self.pages
    }

    pub fn into_pages(self) -> (r: Vec<Page>)
        ensures
            r == self.pages,
    {
        self.pages
    }

    /// Joins all pages, in order, into one page; the language stays.
    pub fn concat_pages(self) -> (r: Article)
        ensures
            r.lang == self.lang,
            r@.pages == seq![self@.pages.flatten()],
    {
        let Article { lang, pages } = self;
        let ghost pv = pages_view(pages@);
        let mut msgs: Vec<Msg> = Vec::new();
        for page in it: pages
            invariant
                pv == pages_view(it.seq()),
                msgs_view(msgs@) == pv.take(it.index()).flatten(),
        {
            let ghost i = it.index();
            let ghost before = msgs@;
            let mut page_msgs = page.msgs;
            let ghost added = page_msgs@;
            msgs.append(&mut page_msgs);
            proof {
                assert(msgs@ == before + added);
                assert(msgs_view(before + added) =~= msgs_view(before) + msgs_view(added));
                assert(pv.take(i + 1) =~= pv.take(i).push(pv[i]));
                pv.take(i).lemma_flatten_push(pv[i]);
            }
        }
        proof {
            assert(pv.take(pv.len() as int) =~= pv);
        }
        let page = Page { msgs };
        let mut pages: Vec<Page> = Vec::new();
        pages.push(page);
        proof {
            assert(pages_view(pages@) =~= seq![pv.flatten()]);
        }
        Article { lang, pages }
    }
}

/// Joining the pages of an article whose pages were joined already changes
/// nothing: `concat_pages` applied twice gives what it gives once.
pub proof fn lemma_concat_pages_idempotent(article: SpecArticle)
    ensures
        seq![seq![article.pages.flatten()].flatten()] == seq![article.pages.flatten()],
{
    let once = article.pages.flatten();
    seq![once].lemma_flatten_one_element();
}

// ---------------------------------------------------------------------------
// The images of an article
// ---------------------------------------------------------------------------

/// The images of a message, in the order in which they are made available:
/// the speaker's avatar, then the image that the body shows.
pub open spec fn msg_images(m: SpecMsg) -> Seq<SpecImageValue> {
    let avatar = match m.profile {
        Some(p) => seq![p.avatar],
        None => seq![],
    };
    match m.body {
        SpecBody::Image(i) => avatar.push(i),
        SpecBody::Text(_) => avatar,
    }
}

/// The images of a sequence of messages, message by message.
pub open spec fn msgs_images(msgs: Seq<SpecMsg>) -> Seq<SpecImageValue>
    decreases msgs.len(),
{
    if msgs.len() == 0 {
        seq![]
    } else {
        msgs_images(msgs.drop_last()) + msg_images(msgs.last())
    }
}

/// The images of a sequence of pages, page by page.
pub open spec fn pages_images(pages: Seq<Seq<SpecMsg>>) -> Seq<SpecImageValue>
    decreases pages.len(),
{
    if pages.len() == 0 {
        seq![]
    } else {
        pages_images(pages.drop_last()) + msgs_images(pages.last())
    }
}

/// The models of a sequence of borrowed images.
pub open spec fn image_refs_view(images: Seq<&ImageValue>) -> Seq<SpecImageValue> {
    images.map_values(|i: &ImageValue| i@)
}

/// The images of two sequences of messages, one after the other, are those of
/// the first and then those of the second.
pub proof fn lemma_msgs_images_concat(a: Seq<SpecMsg>, b: Seq<SpecMsg>)
    ensures
        msgs_images(a + b) == msgs_images(a) + msgs_images(b),
    decreases b.len(),
{
    if b.len() == 0 {
        assert(a + b =~= a);
        assert(msgs_images(a) + msgs_images(b) =~= msgs_images(a));
    } else {
        lemma_msgs_images_concat(a, b.drop_last());
        assert((a + b).drop_last() =~= a + b.drop_last());
        assert((a + b).last() == b.last());
        assert(msgs_images(a + b) =~= msgs_images(a) + msgs_images(b));
    }
}

/// The images of a sequence of pages are those of all their messages joined.
pub proof fn lemma_pages_images_flatten(pages: Seq<Seq<SpecMsg>>)
    ensures
        pages_images(pages) == msgs_images(pages.flatten()),
    decreases pages.len(),
{
    if pages.len() > 0 {
        let init = pages.drop_last();
        lemma_pages_images_flatten(init);
        assert(init.push(pages.last()) =~= pages);
        init.lemma_flatten_push(pages.last());
        lemma_msgs_images_concat(init.flatten(), pages.last());
    }
}

/// Joining the pages of an article keeps its images and their order: the
/// article that `concat_pages` gives has the images of the one it was given.
pub proof fn lemma_concat_pages_keeps_images(article: SpecArticle)
    ensures
        pages_images(seq![article.pages.flatten()]) == pages_images(article.pages),
{
    let joined = seq![article.pages.flatten()];
    lemma_pages_images_flatten(article.pages);
    assert(joined.drop_last() =~= Seq::<Seq<SpecMsg>>::empty());
    assert(joined.last() == article.pages.flatten());
    assert(pages_images(joined.drop_last()) == Seq::<SpecImageValue>::empty());
    assert(pages_images(joined) =~= msgs_images(article.pages.flatten()));
}

/// Every image of a message is among the images of a sequence of messages
/// that holds it.
proof fn lemma_msgs_images_cover(msgs: Seq<SpecMsg>, j: int, x: SpecImageValue)
    requires
        0 <= j < msgs.len(),
        msg_images(msgs[j]).contains(x),
    ensures
        msgs_images(msgs).contains(x),
    decreases msgs.len(),
{
    let init = msgs.drop_last();
    if j < msgs.len() - 1 {
        assert(init[j] == msgs[j]);
        lemma_msgs_images_cover(init, j, x);
        let k = choose|k: int| 0 <= k < msgs_images(init).len() && msgs_images(init)[k] == x;
        assert(msgs_images(msgs)[k] == x);
    } else {
        let k = choose|k: int| 0 <= k < msg_images(msgs[j]).len() && msg_images(msgs[j])[k] == x;
        assert(msgs_images(msgs)[msgs_images(init).len() + k] == x);
    }
}

/// Every image of a message is among the images of pages that hold it.
proof fn lemma_pages_images_cover(pages: Seq<Seq<SpecMsg>>, k: int, j: int, x: SpecImageValue)
    requires
        0 <= k < pages.len(),
        0 <= j < pages[k].len(),
        msg_images(pages[k][j]).contains(x),
    ensures
        pages_images(pages).contains(x),
    decreases pages.len(),
{
    let init = pages.drop_last();
    if k < pages.len() - 1 {
        assert(init[k] == pages[k]);
        lemma_pages_images_cover(init, k, j, x);
        let n = choose|n: int| 0 <= n < pages_images(init).len() && pages_images(init)[n] == x;
        assert(pages_images(pages)[n] == x);
    } else {
        lemma_msgs_images_cover(pages[k], j, x);
        let n = choose|n: int| 0 <= n < msgs_images(pages[k]).len() && msgs_images(pages[k])[n] == x;
        assert(pages_images(pages)[pages_images(init).len() + n] == x);
    }
}

/// Every image that a message of an article refers to is among the article's
/// images, so it is made available before the article is rendered: the
/// avatar of the speaker's profile, whatever the body, and the image that the
/// body shows.
pub proof fn lemma_images_cover_every_message(pages: Seq<Seq<SpecMsg>>, k: int, j: int)
    requires
        0 <= k < pages.len(),
        0 <= j < pages[k].len(),
    ensures
        pages[k][j].profile matches Some(p) ==> pages_images(pages).contains(p.avatar),
        pages[k][j].body matches SpecBody::Image(i) ==> pages_images(pages).contains(i),
{
    let m = pages[k][j];
    if let Some(p) = m.profile {
        assert(msg_images(m)[0] == p.avatar);
        lemma_pages_images_cover(pages, k, j, p.avatar);
    }
    if let SpecBody::Image(i) = m.body {
        assert(msg_images(m).last() == i);
        lemma_pages_images_cover(pages, k, j, i);
    }
}

/// A message brings no image other than its avatar and its body's image: it
/// brings one image per profile and one per image body, avatar first.
pub proof fn lemma_msg_images_exact(m: SpecMsg)
    ensures
        msg_images(m).len() == (if m.profile is Some { 1int } else { 0int }) + (if m.body is Image {
            1int
        } else {
            0int
        }),
        m.profile matches Some(p) ==> msg_images(m)[0] == p.avatar,
        m.body matches SpecBody::Image(i) ==> msg_images(m).last() == i,
{
}

impl Article {
    /// Every image of the article, in order: page by page, message by message,
    /// the speaker's avatar before the image of the body. These are the files
    /// that must be present before the article is rendered.
    pub fn images(&self) -> (r: Vec<&ImageValue>)
        ensures
            image_refs_view(r@) == pages_images(self@.pages),
    {
        let ghost pv = self@.pages;
        let mut out: Vec<&ImageValue> = Vec::new();
        let mut i: usize = 0;
        while i < self.pages.len()
            invariant
                pv == self@.pages,
                i <= self.pages.len(),
                image_refs_view(out@) == pages_images(pv.take(i as int)),
            decreases self.pages.len() - i,
        {
            let page = &self.pages[i];
            let ghost mv = page@;
            let ghost start = image_refs_view(out@);
            let mut j: usize = 0;
            while j < page.msgs.len()
                invariant
                    mv == page@,
                    j <= page.msgs.len(),
                    image_refs_view(out@) == start + msgs_images(mv.take(j as int)),
                decreases page.msgs.len() - j,
            {
                let msg = &page.msgs[j];
                let ghost before = image_refs_view(out@);
                match &msg.profile {
                    Some(p) => {
                        out.push(&p.avatar);
                    },
                    None => {},
                }
                match &msg.body {
                    Body::Image(img) => {
                        out.push(img);
                    },
                    Body::Text(_) => {},
                }
                proof {
                    assert(mv[j as int] == msg@);
                    assert(image_refs_view(out@) =~= before + msg_images(msg@));
                    assert(mv.take(j + 1).drop_last() =~= mv.take(j as int));
                    assert(mv.take(j + 1).last() == mv[j as int]);
                    assert(image_refs_view(out@) =~= start + msgs_images(mv.take(j + 1)));
                }
                j = j + 1;
            }
            proof {
                assert(mv.take(mv.len() as int) =~= mv);
                assert(pv[i as int] == mv);
                assert(pv.take(i + 1).drop_last() =~= pv.take(i as int));
                assert(pv.take(i + 1).last() == pv[i as int]);
            }
            i = i + 1;
        }
        proof {
            assert(pv.take(pv.len() as int) =~= pv);
        }
        out
    }
}

// ---------------------------------------------------------------------------
// Page
// ---------------------------------------------------------------------------

#[derive(Debug, Clone, PartialEq, Eq)]
pub struct Page {
    pub msgs: Vec<Msg>,
}

impl View for Page {
    type V = Seq<SpecMsg>;

    open spec fn view(&self) -> Seq<SpecMsg> {
        msgs_view(self.msgs@)
    }
}

impl Page {
    /// Builds a page from its messages.
    pub fn new(msgs: Vec<Msg>) -> (r: Page)
        ensures
            r.msgs == msgs,
    {
        Page { msgs }
    }

    pub fn msgs(&self) -> (r: &Vec<Msg>)
        ensures
            r == &self.msgs,
    {
        &self.msgs
    }

    pub fn into_msgs(self) -> (r: Vec<Msg>)
        ensures
            r == self.msgs,
    {
        self.msgs
    }
}

impl IntoIterator for Page {
    type Item = Msg;
    type IntoIter = std::vec::IntoIter<Msg>;

    /// The messages of the page, in order: the iterator yields exactly what
    /// `into_msgs` gives.
    fn into_iter(self) -> (r: std::vec::IntoIter<Msg>)
        ensures
            r == self.msgs.into_iter(),
            vstd::std_specs::iter::IteratorSpec::remaining(&r) == self.msgs@,
    {
        self.msgs.into_iter()
    }
}

// ---------------------------------------------------------------------------
// Message
// ---------------------------------------------------------------------------

#[derive(Debug, Clone, PartialEq, Eq)]
pub struct Msg {
    pub role: Role,
    pub body: Body,
    pub profile: Option<Arc<Profile>>,
}

impl View for Msg {
    type V = SpecMsg;

    open spec fn view(&self) -> SpecMsg {
        SpecMsg {
            role: self.role,
            body: self.body@,
            profile: match self.profile {
                Some(p) => Some(p@),
                None => None,
            },
        }
    }
}

impl Msg {
    /// Builds a message from its role, body and optional shared profile.
    pub fn new(role: Role, body: Body, profile: Option<Arc<Profile>>) -> (r: Msg)
        ensures
            r.role == role,
            r.body == body,
            r.profile == profile,
    {
        Msg { role, body, profile }
    }

    pub fn role(&self) -> (r: &Role)
        ensures
            *r == self.role,
    {
        &self.role
    }

    pub fn body(&self) -> (r: &Body)
        ensures
            r == &self.body,
    {
        &self.body
    }

    /// The speaker's profile, if the message has one.
    pub fn profile(&self) -> (r: Option<&Profile>)
        ensures
            match (r, self.profile) {
                (Some(p), Some(q)) => *p == *q,
                (None, None) => true,
                _ => false,
            },
    {
        match &self.profile {
            Some(p) => Some(&**p),
            None => None,
        }
    }

    /// Another handle to the same shared profile, if the message has one.
    pub fn profile_shared(&self) -> (r: Option<Arc<Profile>>)
        ensures
            r == self.profile,
    {
        match &self.profile {
            Some(p) => Some(arc_clone(p)),
            None => None,
        }
    }
}

/// `Arc::clone`: another pointer to the same allocation, so to the same value.
#[verifier::external_body]
fn arc_clone<T>(a: &Arc<T>) -> (r: Arc<T>)
    ensures
        r == *a,
{
    Arc::clone(a)
}

#[derive(Debug, Clone, Copy, PartialEq, Eq, Hash, Structural)]
pub enum Role {
    Guest,
    Host,
    System,
    Reply,
    BondStory,
}

#[derive(Debug, Clone, PartialEq, Eq)]
pub enum Body {
    Text(TextValue),
    Image(ImageValue),
}

impl View for Body {
    type V = SpecBody;

    open spec fn view(&self) -> SpecBody {
        match self {
            Body::Text(t) => SpecBody::Text(t@),
            Body::Image(i) => SpecBody::Image(i@),
        }
    }
}

// ---------------------------------------------------------------------------
// Values
// ---------------------------------------------------------------------------

#[derive(Debug, Clone, PartialEq, Eq)]
pub struct TextValue {
    pub content: String,
}

impl View for TextValue {
    type V = Seq<char>;

    open spec fn view(&self) -> Seq<char> {
        self.content@
    }
}

impl TextValue {
    /// Builds a text value from its content.
    pub fn new(content: String) -> (r: TextValue)
        ensures
            r.content == content,
    {
        TextValue { content }
    }

    pub fn content(&self) -> (r: &String)
        ensures
            r == &self.content,
    {
        &self.content
    }

    pub fn into_content(self) -> (r: String)
        ensures
            r == self.content,
    {
        self.content
    }
}

#[derive(Debug, Clone, PartialEq, Eq)]
pub struct ImageValue {
    pub path: String,
    pub url: Option<String>,
}

impl View for ImageValue {
    type V = SpecImageValue;

    open spec fn view(&self) -> SpecImageValue {
        SpecImageValue { path: self.path@, url: opt_str_view(self.url) }
    }
}

impl ImageValue {
    /// Builds an image value from its local path and optional URL.
    pub fn new(path: String, url: Option<String>) -> (r: ImageValue)
        ensures
            r.path == path,
            r.url == url,
    {
        ImageValue { path, url }
    }

    pub fn path(&self) -> (r: &String)
        ensures
            r == &self.path,
    {
        &self.path
    }

    pub fn url(&self) -> (r: &Option<String>)
        ensures
            r == &self.url,
    {
        &self.url
    }

    pub fn into_path(self) -> (r: String)
        ensures
            r == self.path,
    {
        self.path
    }

    pub fn into_path_and_url(self) -> (r: (String, Option<String>))
        ensures
            r.0 == self.path,
            r.1 == self.url,
    {
        let ImageValue { path, url } = self;
        (path, url)
    }
}

/// What is to be done so that an image is available at its local path.
#[derive(Debug, Clone, PartialEq, Eq)]
pub enum EnsureStep {
    /// The file exists already.
    Present,
    /// Fetch the image from this URL into the path, after creating the
    /// missing parent directory where `create_parent` says so.
    Fetch { create_parent: bool, url: String },
    /// The file is missing and there is no URL to fetch it from; the missing
    /// parent directory is still created where `create_parent` says so.
    Missing { create_parent: bool },
}

impl ImageValue {
    /// The step that makes the image available at its path, given whether the
    /// file exists and whether its parent directory is missing: nothing when it
    /// exists, else the parent directory is created if missing and the image
    /// is fetched from its URL, or reported missing when it has none.
    pub fn ensure_step(&self, path_exists: bool, parent_missing: bool) -> (r: EnsureStep)
        ensures
            path_exists ==> r == EnsureStep::Present,
            !path_exists ==> match self.url {
                Some(u) => r matches EnsureStep::Fetch { create_parent, url }
                    && create_parent == parent_missing && url@ == u@,
                None => r == (EnsureStep::Missing { create_parent: parent_missing }),
            },
    {
        if path_exists {
            EnsureStep::Present
        } else {
            match &self.url {
                Some(u) => EnsureStep::Fetch { create_parent: parent_missing, url: u.clone() },
                None => EnsureStep::Missing { create_parent: parent_missing },
            }
        }
    }
}

#[derive(Debug, Clone, PartialEq, Eq)]
pub struct Profile {
    pub name: String,
    pub avatar: ImageValue,
}

impl View for Profile {
    type V = SpecProfile;

    open spec fn view(&self) -> SpecProfile {
        SpecProfile { name: self.name@, avatar: self.avatar@ }
    }
}

impl Profile {
    /// Builds a profile from a name and an avatar image.
    pub fn new(name: String, avatar: ImageValue) -> (r: Profile)
        ensures
            r.name == name,
            r.avatar == avatar,
    {
        Profile { name, avatar }
    }

    pub fn name(&self) -> (r: &String)
        ensures
            r == &self.name,
    {
        &self.name
    }

    pub fn avatar(&self) -> (r: &ImageValue)
        ensures
            r == &self.avatar,
    {
        &self.avatar
    }
}

} // verus!
