//! The intermediate form of an article: what a Lua script evaluates to, and
//! what is dumped to and loaded from JSON.
//!
//! It differs from the domain model in one point: an image may lack its local
//! path, which is then derived from its URL.

use std::sync::Arc;
use vstd::prelude::*;

use crate::model::domain::{self, SpecBody, SpecImageValue, SpecMsg, SpecProfile};
use crate::text::push_char;

verus! {

// ---------------------------------------------------------------------------
// Types
// ---------------------------------------------------------------------------

#[derive(Debug, Clone, PartialEq, Eq)]
pub struct Article {
    pub lang: Lang,
    pub pages: Vec<Page>,
}

#[derive(Debug, Clone, Copy, PartialEq, Eq, Hash, Structural)]
pub enum Lang {
    En,
    Ja,
    Ko,
    ZhHans,
    ZhHant,
}

#[derive(Debug, Clone, PartialEq, Eq)]
pub struct Page {
    pub msgs: Vec<Msg>,
}

#[derive(Debug, Clone, PartialEq, Eq)]
pub struct Msg {
    pub role: Role,
    pub body: Body,
    pub profile: Option<Profile>,
}

#[derive(Debug, Clone, Copy, PartialEq, Eq, Hash, Structural)]
pub enum Role {
    Guest,
    Host,
    System,
    Reply,
    BondStory,
}

#[derive(Debug, Clone, PartialEq, Eq)]
pub enum Body {
    Text(TextValue),
    Image(ImageValue),
}

#[derive(Debug, Clone, PartialEq, Eq)]
pub struct TextValue {
    pub content: String,
}

#[derive(Debug, Clone, PartialEq, Eq)]
pub struct ImageValue {
    pub path: Option<String>,
    pub url: Option<String>,
}

#[derive(Debug, Clone, PartialEq, Eq)]
pub struct Profile {
    pub name: String,
    pub avatar: ImageValue,
}

#[derive(Debug, Clone, Copy, PartialEq, Eq, Structural)]
pub enum DtoError {
    /// An image has neither a local path nor a URL.
    NeitherPathNorUrl,
}

// ---------------------------------------------------------------------------
// Models
// ---------------------------------------------------------------------------

pub struct SpecDtoImageValue {
    pub path: Option<Seq<char>>,
    pub url: Option<Seq<char>>,
}

pub enum SpecDtoBody {
    Text(Seq<char>),
    Image(SpecDtoImageValue),
}

pub struct SpecDtoProfile {
    pub name: Seq<char>,
    pub avatar: SpecDtoImageValue,
}

pub struct SpecDtoMsg {
    pub role: Role,
    pub body: SpecDtoBody,
    pub profile: Option<SpecDtoProfile>,
}

pub struct SpecDtoArticle {
    pub lang: Lang,
    pub pages: Seq<Seq<SpecDtoMsg>>,
}

impl View for ImageValue {
    type V = SpecDtoImageValue;

    open spec fn view(&self) -> SpecDtoImageValue {
        SpecDtoImageValue { path: domain::opt_str_view(self.path), url: domain::opt_str_view(self.url) }
    }
}

impl View for TextValue {
    type V = Seq<char>;

    open spec fn view(&self) -> Seq<char> {
        self.content@
    }
}

impl View for Body {
    type V = SpecDtoBody;

    open spec fn view(&self) -> SpecDtoBody {
        match self {
            Body::Text(t) => SpecDtoBody::Text(t@),
            Body::Image(i) => SpecDtoBody::Image(i@),
        }
    }
}

impl View for Profile {
    type V = SpecDtoProfile;

    open spec fn view(&self) -> SpecDtoProfile {
        SpecDtoProfile { name: self.name@, avatar: self.avatar@ }
    }
}

impl View for Msg {
    type V = SpecDtoMsg;

    open spec fn view(&self) -> SpecDtoMsg {
        SpecDtoMsg {
            role: self.role,
            body: self.body@,
            profile: match self.profile {
                Some(p) => Some(p@),
                None => None,
            },
        }
    }
}

impl View for Page {
    type V = Seq<SpecDtoMsg>;

    open spec fn view(&self) -> Seq<SpecDtoMsg> {
        dto_msgs_view(self.msgs@)
    }
}

impl View for Article {
    type V = SpecDtoArticle;

    open spec fn view(&self) -> SpecDtoArticle {
        SpecDtoArticle { lang: self.lang, pages: dto_pages_view(self.pages@) }
    }
}

pub open spec fn dto_msgs_view(msgs: Seq<Msg>) -> Seq<SpecDtoMsg> {
    msgs.map_values(|m: Msg| m@)
}

pub open spec fn dto_pages_view(pages: Seq<Page>) -> Seq<Seq<SpecDtoMsg>> {
    pages.map_values(|p: Page| p@)
}

// ---------------------------------------------------------------------------
// From the domain model: every image keeps its path
// ---------------------------------------------------------------------------

pub open spec fn lang_to_dto(lang: domain::Lang) -> Lang {
    match lang {
        domain::Lang::En => Lang::En,
        domain::Lang::Ja => Lang::Ja,
        domain::Lang::Ko => Lang::Ko,
        domain::Lang::ZhHans => Lang::ZhHans,
        domain::Lang::ZhHant => Lang::ZhHant,
    }
}

pub open spec fn role_to_dto(role: domain::Role) -> Role {
    match role {
        domain::Role::Guest => Role::Guest,
        domain::Role::Host => Role::Host,
        domain::Role::System => Role::System,
        domain::Role::Reply => Role::Reply,
        domain::Role::BondStory => Role::BondStory,
    }
}

pub open spec fn image_to_dto(image: SpecImageValue) -> SpecDtoImageValue {
    SpecDtoImageValue { path: Some(image.path), url: image.url }
}

pub open spec fn body_to_dto(body: SpecBody) -> SpecDtoBody {
    match body {
        SpecBody::Text(t) => SpecDtoBody::Text(t),
        SpecBody::Image(i) => SpecDtoBody::Image(image_to_dto(i)),
    }
}

pub open spec fn profile_to_dto(profile: SpecProfile) -> SpecDtoProfile {
    SpecDtoProfile { name: profile.name, avatar: image_to_dto(profile.avatar) }
}

pub open spec fn msg_to_dto(msg: SpecMsg) -> SpecDtoMsg {
    SpecDtoMsg {
        role: role_to_dto(msg.role),
        body: body_to_dto(msg.body),
        profile: match msg.profile {
            Some(p) => Some(profile_to_dto(p)),
            None => None,
        },
    }
}

pub open spec fn page_to_dto(msgs: Seq<SpecMsg>) -> Seq<SpecDtoMsg> {
    msgs.map_values(|m: SpecMsg| msg_to_dto(m))
}

pub open spec fn article_to_dto(article: domain::SpecArticle) -> SpecDtoArticle {
    SpecDtoArticle {
        lang: lang_to_dto(article.lang),
        pages: article.pages.map_values(|p: Seq<SpecMsg>| page_to_dto(p)),
    }
}

// ---------------------------------------------------------------------------
// To the domain model: an image without path gets one derived from its URL
// ---------------------------------------------------------------------------

/// Bit `j` of a number, counting from the least significant bit.
pub open spec fn bit_of(x: nat, j: nat) -> nat
    decreases j,
{
    if j == 0 {
        x % 2
    } else {
        bit_of(x / 2, (j - 1) as nat)
    }
}

/// Bit `i` of a byte string, counting from the most significant bit of its
/// first byte; `0` past its end.
pub open spec fn bit_at(bytes: Seq<u8>, i: int) -> nat {
    if 0 <= i < 8 * bytes.len() {
        bit_of(bytes[i / 8] as nat, (7 - i % 8) as nat)
    } else {
        0
    }
}

/// The value of the `k`-th group of five bits of a byte string.
pub open spec fn quintet_at(bytes: Seq<u8>, k: int) -> nat {
    16 * bit_at(bytes, 5 * k) + 8 * bit_at(bytes, 5 * k + 1) + 4 * bit_at(bytes, 5 * k + 2)
        + 2 * bit_at(bytes, 5 * k + 3) + bit_at(bytes, 5 * k + 4)
}

/// The symbol of a value below 32 in the Base32hex alphabet `0-9A-V`.
pub open spec fn base32hex_symbol(v: nat) -> char {
    if v < 10 {
        (48 + v) as char
    } else {
        (55 + v) as char
    }
}

/// The Base32hex encoding of a byte string without padding (RFC 4648, section
/// 7), as `BASE32HEX_NOPAD.encode` of the crate `data-encoding` computes it:
/// the bits, most significant first, in groups of five (the last group filled
/// up with zero bits), each written as one symbol of `0-9A-V`.
pub open spec fn base32hex_nopad(bytes: Seq<u8>) -> Seq<char> {
    Seq::new((8 * bytes.len() + 4) as nat / 5, |k: int| base32hex_symbol(quintet_at(bytes, k)))
}

/// The path of the URL that `url::Url::parse` reads from a string, or `None`
/// where it refuses the string.
pub uninterp spec fn url_path(s: Seq<char>) -> Option<Seq<char>>;

/// What follows the last `/` of a string (all of it, if it has none).
pub open spec fn after_last_slash(s: Seq<char>) -> Seq<char>
    decreases s.len(),
{
    if s.len() == 0 {
        s
    } else if s.last() == '/' {
        seq![]
    } else {
        after_last_slash(s.drop_last()).push(s.last())
    }
}

/// The last of the `/`-separated segments of a URL path, as
/// `url::Url::path_segments` and `next_back` give it: `None` unless the path
/// starts with `/`.
pub open spec fn last_path_segment(path: Seq<char>) -> Option<Seq<char>> {
    if path.len() > 0 && path[0] == '/' {
        Some(after_last_slash(path))
    } else {
        None
    }
}

/// The local path given to an image that has only a URL: the Base32hex
/// encoding of the URL's UTF-8 bytes, then `-` and the last segment of the
/// URL's path where the URL parses and that segment is not empty.
pub open spec fn path_from_url(url: Seq<char>) -> Seq<char> {
    let prefix = base32hex_nopad(vstd::utf8::encode_utf8(url));
    match url_path(url) {
        Some(path) => match last_path_segment(path) {
            Some(seg) => if seg.len() > 0 {
                prefix + "-"@ + seg
            } else {
                prefix
            },
            None => prefix,
        },
        None => prefix,
    }
}

/// An image can be converted without a panic of the encoder: a URL from which a
/// path is derived is short enough for `data-encoding` (its UTF-8 form has at
/// most `usize::MAX / 512` bytes).
pub open spec fn image_encodable(image: SpecDtoImageValue) -> bool {
    image.path is None && image.url is Some ==> vstd::utf8::encode_utf8(image.url->0).len()
        <= usize::MAX / 512
}

pub open spec fn body_encodable(body: SpecDtoBody) -> bool {
    match body {
        SpecDtoBody::Text(_) => true,
        SpecDtoBody::Image(i) => image_encodable(i),
    }
}

pub open spec fn msg_encodable(msg: SpecDtoMsg) -> bool {
    &&& body_encodable(msg.body)
    &&& match msg.profile {
        Some(p) => image_encodable(p.avatar),
        None => true,
    }
}

pub open spec fn page_encodable(msgs: Seq<SpecDtoMsg>) -> bool {
    forall|i: int| 0 <= i < msgs.len() ==> msg_encodable(#[trigger] msgs[i])
}

pub open spec fn article_encodable(article: SpecDtoArticle) -> bool {
    forall|i: int| 0 <= i < article.pages.len() ==> page_encodable(#[trigger] article.pages[i])
}

pub open spec fn lang_from_dto(lang: Lang) -> domain::Lang {
    match lang {
        Lang::En => domain::Lang::En,
        Lang::Ja => domain::Lang::Ja,
        Lang::Ko => domain::Lang::Ko,
        Lang::ZhHans => domain::Lang::ZhHans,
        Lang::ZhHant => domain::Lang::ZhHant,
    }
}

pub open spec fn role_from_dto(role: Role) -> domain::Role {
    match role {
        Role::Guest => domain::Role::Guest,
        Role::Host => domain::Role::Host,
        Role::System => domain::Role::System,
        Role::Reply => domain::Role::Reply,
        Role::BondStory => domain::Role::BondStory,
    }
}

/// An image of the domain model, or `None` where it has neither path nor URL.
pub open spec fn image_from_dto(image: SpecDtoImageValue) -> Option<SpecImageValue> {
    match image.path {
        Some(path) => Some(SpecImageValue { path, url: image.url }),
        None => match image.url {
            Some(url) => Some(SpecImageValue { path: path_from_url(url), url: image.url }),
            None => None,
        },
    }
}

pub open spec fn body_from_dto(body: SpecDtoBody) -> Option<SpecBody> {
    match body {
        SpecDtoBody::Text(t) => Some(SpecBody::Text(t)),
        SpecDtoBody::Image(i) => match image_from_dto(i) {
            Some(image) => Some(SpecBody::Image(image)),
            None => None,
        },
    }
}

pub open spec fn profile_from_dto(profile: SpecDtoProfile) -> Option<SpecProfile> {
    match image_from_dto(profile.avatar) {
        Some(avatar) => Some(SpecProfile { name: profile.name, avatar }),
        None => None,
    }
}

pub open spec fn msg_from_dto(msg: SpecDtoMsg) -> Option<SpecMsg> {
    match (msg.profile, body_from_dto(msg.body)) {
        (None, Some(body)) => Some(SpecMsg { role: role_from_dto(msg.role), body, profile: None }),
        (Some(p), Some(body)) => match profile_from_dto(p) {
            Some(profile) => Some(
                SpecMsg { role: role_from_dto(msg.role), body, profile: Some(profile) },
            ),
            None => None,
        },
        (_, None) => None,
    }
}

/// A page of the domain model, or `None` where one of its messages has an image
/// with neither path nor URL.
pub open spec fn page_from_dto(msgs: Seq<SpecDtoMsg>) -> Option<Seq<SpecMsg>> {
    if forall|i: int| 0 <= i < msgs.len() ==> (#[trigger] msg_from_dto(msgs[i])) is Some {
        Some(msgs.map_values(|m: SpecDtoMsg| msg_from_dto(m)->0))
    } else {
        None
    }
}

pub open spec fn article_from_dto(article: SpecDtoArticle) -> Option<domain::SpecArticle> {
    if forall|i: int| 0 <= i < article.pages.len() ==> (#[trigger] page_from_dto(article.pages[i])) is Some {
        Some(
            domain::SpecArticle {
                lang: lang_from_dto(article.lang),
                pages: article.pages.map_values(|p: Seq<SpecDtoMsg>| page_from_dto(p)->0),
            },
        )
    } else {
        None
    }
}

// ---------------------------------------------------------------------------
// Calls into `data-encoding`, `url` and `std`
// ---------------------------------------------------------------------------

/// `data_encoding::BASE32HEX_NOPAD.encode`: its result is the Base32hex
/// encoding without padding that `base32hex_nopad` states. `Encoding::encode_len`
/// asserts that the input has at most `usize::MAX / 512` bytes, so shorter
/// inputs are required.
#[verifier::external_body]
pub(crate) fn encode_base32hex_nopad(bytes: &[u8]) -> (r: String)
    requires
        bytes@.len() <= usize::MAX / 512,
    ensures
        r@ == base32hex_nopad(bytes@),
{
    data_encoding::BASE32HEX_NOPAD.encode(bytes)
}

/// `url::Url::parse` on a string, followed by `Url::path` of the parsed URL:
/// the path is named by `url_path` and not stated further here; `None` stands
/// for a string that `Url::parse` refuses.
#[verifier::external_body]
fn parse_url_path(s: &str) -> (r: Option<String>)
    ensures
        domain::opt_str_view(r) == url_path(s@),
{
    match url::Url::parse(s) {
        Ok(parsed) => Some(parsed.path().to_owned()),
        Err(_) => None,
    }
}

// ---------------------------------------------------------------------------
// Deriving a path from a URL
// ---------------------------------------------------------------------------

/// What follows the last `/` of a string, as `after_last_slash` states it.
fn after_last_slash_of(path: &str) -> (r: String)
    ensures
        r@ == after_last_slash(path@),
{
    let mut seg = String::new();
    for c in it: path.chars()
        invariant
            it.seq() == path@,
            seg@ == after_last_slash(path@.take(it.index())),
    {
        let ghost n = it.index();
        proof {
            assert(path@.take(n + 1).drop_last() =~= path@.take(n));
            assert(path@.take(n + 1).last() == c);
        }
        if c == '/' {
            seg = String::new();
        } else {
            push_char(&mut seg, c);
        }
    }
    proof {
        assert(path@.take(path@.len() as int) =~= path@);
    }
    seg
}

/// Whether a string starts with `/`.
fn starts_with_slash(s: &str) -> (r: bool)
    ensures
        r == (s@.len() > 0 && s@[0] == '/'),
{
    for c in it: s.chars()
        invariant
            it.seq() == s@,
            it.index() == 0,
    {
        return c == '/';
    }
    false
}

/// The last `/`-separated segment of a URL path; `None` unless the path starts with `/`.
fn last_segment_of(path: &str) -> (r: Option<String>)
    ensures
        domain::opt_str_view(r) == last_path_segment(path@),
{
    if starts_with_slash(path) {
        Some(after_last_slash_of(path))
    } else {
        None
    }
}

/// The path derived from a URL, as `path_from_url` states it.
fn derive_path(url: &str) -> (r: String)
    requires
        vstd::utf8::encode_utf8(url@).len() <= usize::MAX / 512,
    ensures
        r@ == path_from_url(url@),
{
    let mut path = encode_base32hex_nopad(url.as_bytes());
    match parse_url_path(url) {
        Some(url_path) => match last_segment_of(url_path.as_str()) {
            Some(seg) => {
                if !seg.as_str().is_empty() {
                    path.append("-");
                    path.append(seg.as_str());
                }
            },
            None => {},
        },
        None => {},
    }
    path
}

// ---------------------------------------------------------------------------
// Conversions
// ---------------------------------------------------------------------------

impl Lang {
    pub fn from(lang: domain::Lang) -> (r: Lang)
        ensures
            r == lang_to_dto(lang),
    {
        match lang {
            domain::Lang::En => Lang::En,
            domain::Lang::Ja => Lang::Ja,
            domain::Lang::Ko => Lang::Ko,
            domain::Lang::ZhHans => Lang::ZhHans,
            domain::Lang::ZhHant => Lang::ZhHant,
        }
    }
}

impl domain::Lang {
    pub fn from(lang: Lang) -> (r: domain::Lang)
        ensures
            r == lang_from_dto(lang),
    {
        match lang {
            Lang::En => domain::Lang::En,
            Lang::Ja => domain::Lang::Ja,
            Lang::Ko => domain::Lang::Ko,
            Lang::ZhHans => domain::Lang::ZhHans,
            Lang::ZhHant => domain::Lang::ZhHant,
        }
    }
}

impl Role {
    pub fn from(role: domain::Role) -> (r: Role)
        ensures
            r == role_to_dto(role),
    {
        match role {
            domain::Role::Guest => Role::Guest,
            domain::Role::Host => Role::Host,
            domain::Role::System => Role::System,
            domain::Role::Reply => Role::Reply,
            domain::Role::BondStory => Role::BondStory,
        }
    }
}

impl domain::Role {
    pub fn from(role: Role) -> (r: domain::Role)
        ensures
            r == role_from_dto(role),
    {
        match role {
            Role::Guest => domain::Role::Guest,
            Role::Host => domain::Role::Host,
            Role::System => domain::Role::System,
            Role::Reply => domain::Role::Reply,
            Role::BondStory => domain::Role::BondStory,
        }
    }
}

impl TextValue {
    pub fn from(text: domain::TextValue) -> (r: TextValue)
        ensures
            r@ == text@,
    {
        TextValue { content: text.content }
    }
}

impl domain::TextValue {
    pub fn from(text: TextValue) -> (r: domain::TextValue)
        ensures
            r@ == text@,
    {
        domain::TextValue { content: text.content }
    }
}

impl ImageValue {
    pub fn from(image: domain::ImageValue) -> (r: ImageValue)
        ensures
            r@ == image_to_dto(image@),
    {
        ImageValue { path: Some(image.path), url: image.url }
    }
}

impl domain::ImageValue {
    /// The image with its path, or with a path derived from its URL; refused
    /// when it has neither.
    pub fn try_from(image: ImageValue) -> (r: Result<domain::ImageValue, DtoError>)
        requires
            image_encodable(image@),
        ensures
            match image_from_dto(image@) {
                Some(v) => r is Ok && r->Ok_0@ == v,
                None => r == Err::<domain::ImageValue, DtoError>(DtoError::NeitherPathNorUrl),
            },
    {
        let ImageValue { path, url } = image;
        let path = match path {
            Some(path) => path,
            None => match &url {
                Some(u) => derive_path(u.as_str()),
                None => return Err(DtoError::NeitherPathNorUrl),
            },
        };
        Ok(domain::ImageValue { path, url })
    }
}

impl Body {
    pub fn from(body: domain::Body) -> (r: Body)
        ensures
            r@ == body_to_dto(body@),
    {
        match body {
            domain::Body::Text(t) => Body::Text(TextValue::from(t)),
            domain::Body::Image(i) => Body::Image(ImageValue::from(i)),
        }
    }
}

impl domain::Body {
    pub fn try_from(body: Body) -> (r: Result<domain::Body, DtoError>)
        requires
            body_encodable(body@),
        ensures
            match body_from_dto(body@) {
                Some(v) => r is Ok && r->Ok_0@ == v,
                None => r == Err::<domain::Body, DtoError>(DtoError::NeitherPathNorUrl),
            },
    {
        match body {
            Body::Text(t) => Ok(domain::Body::Text(domain::TextValue::from(t))),
            Body::Image(i) => match domain::ImageValue::try_from(i) {
                Ok(image) => Ok(domain::Body::Image(image)),
                Err(e) => Err(e),
            },
        }
    }
}

impl Profile {
    pub fn from(profile: domain::Profile) -> (r: Profile)
        ensures
            r@ == profile_to_dto(profile@),
    {
        Profile { name: profile.name, avatar: ImageValue::from(profile.avatar) }
    }
}

impl domain::Profile {
    pub fn try_from(profile: Profile) -> (r: Result<domain::Profile, DtoError>)
        requires
            image_encodable(profile.avatar@),
        ensures
            match profile_from_dto(profile@) {
                Some(v) => r is Ok && r->Ok_0@ == v,
                None => r == Err::<domain::Profile, DtoError>(DtoError::NeitherPathNorUrl),
            },
    {
        let Profile { name, avatar } = profile;
        match domain::ImageValue::try_from(avatar) {
            Ok(avatar) => Ok(domain::Profile { name, avatar }),
            Err(e) => Err(e),
        }
    }
}

/// A copy of a profile, field by field.
fn copy_profile(profile: &domain::Profile) -> (r: domain::Profile)
    ensures
        r@ == profile@,
{
    let url = match &profile.avatar.url {
        Some(u) => Some(u.clone()),
        None => None,
    };
    domain::Profile {
        name: profile.name.clone(),
        avatar: domain::ImageValue { path: profile.avatar.path.clone(), url },
    }
}

impl Msg {
    pub fn from(msg: domain::Msg) -> (r: Msg)
        ensures
            r@ == msg_to_dto(msg@),
    {
        let domain::Msg { role, body, profile } = msg;
        let profile = match &profile {
            Some(p) => Some(Profile::from(copy_profile(&**p))),
            None => None,
        };
        Msg { role: Role::from(role), body: Body::from(body), profile }
    }
}

impl domain::Msg {
    /// The message, its profile (shared) and body converted; the profile is
    /// converted first.
    pub fn try_from(msg: Msg) -> (r: Result<domain::Msg, DtoError>)
        requires
            msg_encodable(msg@),
        ensures
            match msg_from_dto(msg@) {
                Some(v) => r is Ok && r->Ok_0@ == v,
                None => r == Err::<domain::Msg, DtoError>(DtoError::NeitherPathNorUrl),
            },
    {
        let Msg { role, body, profile } = msg;
        let profile = match profile {
            Some(p) => match domain::Profile::try_from(p) {
                Ok(p) => Some(Arc::new(p)),
                Err(e) => return Err(e),
            },
            None => None,
        };
        let body = match domain::Body::try_from(body) {
            Ok(b) => b,
            Err(e) => return Err(e),
        };
        Ok(domain::Msg { role: domain::Role::from(role), body, profile })
    }
}

/// Converts messages of the domain model, in order.
fn msgs_to_dto(msgs: Vec<domain::Msg>) -> (r: Vec<Msg>)
    ensures
        dto_msgs_view(r@) == page_to_dto(domain::msgs_view(msgs@)),
{
    let ghost mv = domain::msgs_view(msgs@);
    let mut out: Vec<Msg> = Vec::new();
    proof {
        assert(dto_msgs_view(out@) =~= page_to_dto(mv.take(0)));
    }
    for msg in it: msgs
        invariant
            mv == domain::msgs_view(it.seq()),
            dto_msgs_view(out@) == page_to_dto(mv.take(it.index())),
    {
        let ghost n = it.index();
        let ghost before = out@;
        out.push(Msg::from(msg));
        proof {
            assert(mv.take(n + 1) =~= mv.take(n).push(mv[n]));
            assert(dto_msgs_view(out@) =~= dto_msgs_view(before).push(msg_to_dto(mv[n])));
            assert(page_to_dto(mv.take(n + 1)) =~= page_to_dto(mv.take(n)).push(msg_to_dto(mv[n])));
        }
    }
    proof {
        assert(mv.take(mv.len() as int) =~= mv);
    }
    out
}

/// Converts messages to the domain model, in order; refused when one of them is.
fn msgs_from_dto(msgs: Vec<Msg>) -> (r: Result<Vec<domain::Msg>, DtoError>)
    requires
        page_encodable(dto_msgs_view(msgs@)),
    ensures
        match page_from_dto(dto_msgs_view(msgs@)) {
            Some(v) => r is Ok && domain::msgs_view(r->Ok_0@) == v,
            None => r == Err::<Vec<domain::Msg>, DtoError>(DtoError::NeitherPathNorUrl),
        },
{
    let ghost dv = dto_msgs_view(msgs@);
    let mut out: Vec<domain::Msg> = Vec::new();
    proof {
        assert(domain::msgs_view(out@) =~= dv.take(0).map_values(|m: SpecDtoMsg| msg_from_dto(m)->0));
    }
    for msg in it: msgs
        invariant
            dv == dto_msgs_view(it.seq()),
            page_encodable(dv),
            forall|j: int| 0 <= j < it.index() ==> (#[trigger] msg_from_dto(dv[j])) is Some,
            domain::msgs_view(out@) == dv.take(it.index()).map_values(
                |m: SpecDtoMsg| msg_from_dto(m)->0,
            ),
    {
        let ghost n = it.index();
        let ghost before = out@;
        proof {
            assert(msg_encodable(dv[n]));
        }
        match domain::Msg::try_from(msg) {
            Ok(m) => {
                out.push(m);
                proof {
                    assert(dv.take(n + 1) =~= dv.take(n).push(dv[n]));
                    assert(domain::msgs_view(out@) =~= domain::msgs_view(before).push(m@));
                    assert(dv.take(n + 1).map_values(|m: SpecDtoMsg| msg_from_dto(m)->0)
                        =~= dv.take(n).map_values(|m: SpecDtoMsg| msg_from_dto(m)->0).push(
                        msg_from_dto(dv[n])->0,
                    ));
                }
            },
            Err(e) => {
                return Err(e);
            },
        }
    }
    proof {
        assert(dv.take(dv.len() as int) =~= dv);
    }
    Ok(out)
}

impl Page {
    pub fn from(page: domain::Page) -> (r: Page)
        ensures
            r@ == page_to_dto(page@),
    {
        Page { msgs: msgs_to_dto(page.msgs) }
    }
}

impl domain::Page {
    pub fn try_from(page: Page) -> (r: Result<domain::Page, DtoError>)
        requires
            page_encodable(page@),
        ensures
            match page_from_dto(page@) {
                Some(v) => r is Ok && r->Ok_0@ == v,
                None => r == Err::<domain::Page, DtoError>(DtoError::NeitherPathNorUrl),
            },
    {
        match msgs_from_dto(page.msgs) {
            Ok(msgs) => Ok(domain::Page { msgs }),
            Err(e) => Err(e),
        }
    }
}

impl Article {
    pub fn from(article: domain::Article) -> (r: Article)
        ensures
            r@ == article_to_dto(article@),
    {
        let domain::Article { lang, pages } = article;
        let ghost pv = domain::pages_view(pages@);
        let mut out: Vec<Page> = Vec::new();
        proof {
            assert(dto_pages_view(out@) =~= pv.take(0).map_values(|p: Seq<SpecMsg>| page_to_dto(p)));
        }
        for page in it: pages
            invariant
                pv == domain::pages_view(it.seq()),
                dto_pages_view(out@) == pv.take(it.index()).map_values(
                    |p: Seq<SpecMsg>| page_to_dto(p),
                ),
        {
            let ghost n = it.index();
            let ghost before = out@;
            out.push(Page::from(page));
            proof {
                assert(pv.take(n + 1) =~= pv.take(n).push(pv[n]));
                assert(dto_pages_view(out@) =~= dto_pages_view(before).push(page_to_dto(pv[n])));
                assert(pv.take(n + 1).map_values(|p: Seq<SpecMsg>| page_to_dto(p))
                    =~= pv.take(n).map_values(|p: Seq<SpecMsg>| page_to_dto(p)).push(
                    page_to_dto(pv[n]),
                ));
            }
        }
        proof {
            assert(pv.take(pv.len() as int) =~= pv);
        }
        Article { lang: Lang::from(lang), pages: out }
    }
}

impl domain::Article {
    /// The article of the domain model; refused when an image has neither a
    /// path nor a URL.
    pub fn try_from(article: Article) -> (r: Result<domain::Article, DtoError>)
        requires
            article_encodable(article@),
        ensures
            match article_from_dto(article@) {
                Some(v) => r is Ok && r->Ok_0@ == v,
                None => r == Err::<domain::Article, DtoError>(DtoError::NeitherPathNorUrl),
            },
    {
        let Article { lang, pages } = article;
        let ghost dv = dto_pages_view(pages@);
        let mut out: Vec<domain::Page> = Vec::new();
        proof {
            assert(domain::pages_view(out@) =~= dv.take(0).map_values(
                |p: Seq<SpecDtoMsg>| page_from_dto(p)->0,
            ));
        }
        for page in it: pages
            invariant
                dv == dto_pages_view(it.seq()),
                dv == article@.pages,
                lang == article.lang,
                article_encodable(article@),
                forall|j: int| 0 <= j < it.index() ==> (#[trigger] page_from_dto(dv[j])) is Some,
                domain::pages_view(out@) == dv.take(it.index()).map_values(
                    |p: Seq<SpecDtoMsg>| page_from_dto(p)->0,
                ),
        {
            let ghost n = it.index();
            let ghost before = out@;
            proof {
                assert(page_encodable(dv[n]));
            }
            match domain::Page::try_from(page) {
                Ok(p) => {
                    out.push(p);
                    proof {
                        assert(dv.take(n + 1) =~= dv.take(n).push(dv[n]));
                        assert(domain::pages_view(out@) =~= domain::pages_view(before).push(p@));
                        assert(dv.take(n + 1).map_values(|p: Seq<SpecDtoMsg>| page_from_dto(p)->0)
                            =~= dv.take(n).map_values(|p: Seq<SpecDtoMsg>| page_from_dto(p)->0).push(
                            page_from_dto(dv[n])->0,
                        ));
                    }
                },
                Err(e) => {
                    return Err(e);
                },
            }
        }
        proof {
            assert(dv.take(dv.len() as int) =~= dv);
        }
        Ok(domain::Article { lang: domain::Lang::from(lang), pages: out })
    }
}

// ---------------------------------------------------------------------------
// Laws
// ---------------------------------------------------------------------------

/// Every image of an article in intermediate form has a local path.
pub open spec fn article_has_paths(article: SpecDtoArticle) -> bool {
    forall|i: int, j: int|
        0 <= i < article.pages.len() && 0 <= j < article.pages[i].len() ==> msg_has_paths(
            #[trigger] article.pages[i][j],
        )
}

pub open spec fn msg_has_paths(msg: SpecDtoMsg) -> bool {
    &&& (msg.body matches SpecDtoBody::Image(i) ==> i.path is Some)
    &&& (msg.profile matches Some(p) ==> p.avatar.path is Some)
}

proof fn lemma_msg_roundtrip(msg: SpecMsg)
    ensures
        msg_from_dto(msg_to_dto(msg)) == Some(msg),
        msg_encodable(msg_to_dto(msg)),
        msg_has_paths(msg_to_dto(msg)),
{
}

/// An article dumped to the intermediate form and loaded again is the same
/// article: the conversion back succeeds and gives every message, image and
/// profile back unchanged.
pub proof fn lemma_dump_load_roundtrip(article: domain::SpecArticle)
    ensures
        article_encodable(article_to_dto(article)),
        article_has_paths(article_to_dto(article)),
        article_from_dto(article_to_dto(article)) == Some(article),
{
    let d = article_to_dto(article);
    assert forall|i: int, j: int| 0 <= i < d.pages.len() && 0 <= j < d.pages[i].len() implies {
        &&& msg_from_dto(#[trigger] d.pages[i][j]) == Some(article.pages[i][j])
        &&& msg_encodable(d.pages[i][j])
        &&& msg_has_paths(d.pages[i][j])
    } by {
        lemma_msg_roundtrip(article.pages[i][j]);
    }
    assert forall|i: int| 0 <= i < d.pages.len() implies page_from_dto(#[trigger] d.pages[i]) == Some(
        article.pages[i],
    ) by {
        assert forall|j: int| 0 <= j < d.pages[i].len() implies (#[trigger] msg_from_dto(
            d.pages[i][j],
        )) is Some by {}
        assert(d.pages[i].map_values(|m: SpecDtoMsg| msg_from_dto(m)->0) =~= article.pages[i]);
    }
    assert forall|i: int| 0 <= i < d.pages.len() implies page_encodable(#[trigger] d.pages[i]) by {
        assert forall|j: int| 0 <= j < d.pages[i].len() implies msg_encodable(
            #[trigger] d.pages[i][j],
        ) by {}
    }
    assert(d.pages.map_values(|p: Seq<SpecDtoMsg>| page_from_dto(p)->0) =~= article.pages);
}

/// An article in intermediate form whose images all have local paths, loaded
/// and dumped again, is the same: nothing is lost or derived on the way.
pub proof fn lemma_load_dump_roundtrip(article: SpecDtoArticle)
    requires
        article_has_paths(article),
    ensures
        article_from_dto(article) is Some,
        article_to_dto(article_from_dto(article)->0) == article,
{
    assert forall|i: int, j: int|
        0 <= i < article.pages.len() && 0 <= j < article.pages[i].len() implies {
        &&& (#[trigger] msg_from_dto(article.pages[i][j])) is Some
        &&& msg_to_dto(msg_from_dto(article.pages[i][j])->0) == article.pages[i][j]
    } by {
        assert(msg_has_paths(article.pages[i][j]));
    }
    assert forall|i: int| 0 <= i < article.pages.len() implies (#[trigger] page_from_dto(
        article.pages[i],
    )) is Some by {
        assert forall|j: int| 0 <= j < article.pages[i].len() implies (#[trigger] msg_from_dto(
            article.pages[i][j],
        )) is Some by {}
    }
    let a = article_from_dto(article)->0;
    assert forall|i: int| 0 <= i < article.pages.len() implies page_to_dto(
        #[trigger] a.pages[i],
    ) == article.pages[i] by {
        assert(page_to_dto(a.pages[i]) =~= article.pages[i]);
    }
    assert(a.pages.map_values(|p: Seq<SpecMsg>| page_to_dto(p)) =~= article.pages);
}

/// Dumping an article keeps every image where it was: the image of a message
/// body is dumped with its own path and URL, and so is a speaker's avatar;
/// a text body is dumped as the same text.
pub proof fn lemma_dump_keeps_images_in_place(article: domain::SpecArticle, k: int, j: int)
    requires
        0 <= k < article.pages.len(),
        0 <= j < article.pages[k].len(),
    ensures
        ({
            let msg = article.pages[k][j];
            let dumped = article_to_dto(article).pages[k][j];
            &&& match msg.body {
                SpecBody::Image(i) => dumped.body == SpecDtoBody::Image(
                    SpecDtoImageValue { path: Some(i.path), url: i.url },
                ),
                SpecBody::Text(t) => dumped.body == SpecDtoBody::Text(t),
            }
            &&& match msg.profile {
                Some(p) => dumped.profile matches Some(d) && d.name == p.name && d.avatar
                    == (SpecDtoImageValue { path: Some(p.avatar.path), url: p.avatar.url }),
                None => dumped.profile is None,
            }
        }),
{
    assert(article_to_dto(article).pages[k] == page_to_dto(article.pages[k]));
    assert(page_to_dto(article.pages[k])[j] == msg_to_dto(article.pages[k][j]));
}

/// Loading an image keeps a path that it has, and its URL; an image with only
/// a URL gets the path derived from that URL; one with neither is refused.
/// This holds of message bodies and of avatars alike.
pub proof fn lemma_load_keeps_images_in_place(msg: SpecDtoMsg)
    requires
        msg_from_dto(msg) is Some,
    ensures
        ({
            let loaded = msg_from_dto(msg)->0;
            &&& match msg.body {
                SpecDtoBody::Image(d) => loaded.body matches SpecBody::Image(i) && i.url == d.url
                    && match d.path {
                    Some(p) => i.path == p,
                    None => d.url matches Some(u) && i.path == path_from_url(u),
                },
                SpecDtoBody::Text(t) => loaded.body == SpecBody::Text(t),
            }
            &&& match msg.profile {
                Some(d) => loaded.profile matches Some(p) && p.name == d.name && p.avatar.url
                    == d.avatar.url && match d.avatar.path {
                    Some(path) => p.avatar.path == path,
                    None => d.avatar.url matches Some(u) && p.avatar.path == path_from_url(u),
                },
                None => loaded.profile is None,
            }
        }),
{
}

} // verus!
