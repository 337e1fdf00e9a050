//! Where `luatalk do <INPUT> <OUTPUT>` writes, and what it writes for the
//! MomoTalk format.

use vstd::prelude::*;

use crate::model::domain::{self, opt_str_view, AndLang, Article};
use crate::model::momotalk::{
    exports_view, items_view, spec_exports, spec_talk_history, MomotalkExport,
    MomotalkExportError, SpecOutcome, SpecTalkHistoryItem, TalkHistoryItem,
};
use crate::text::{decimal, digit_char, push_right_aligned_decimal, right_aligned};

verus! {

/// The default stem of output file names, where the input gives none.
pub const DEFAULT_OUTPUT_STEM: &'static str = "output";

/// The placeholder for the page number in an output path pattern.
pub const PAGE_NUMBER_PLACEHOLDER: &'static str = "p";

/// The pattern of a page number placeholder in an output path, such as
/// `{p}`, `{0p}` or `{p:>3}`.
pub const PAGE_NUMBER_PATTERN: &'static str = "\\{0?p(?::.*)?\\}";

// ---------------------------------------------------------------------------
// Calls into `strfmt` and `regex`
// ---------------------------------------------------------------------------

/// What `strfmt::strfmt` makes of a format string with one variable `key`
/// set to `value`; `None` where it reports an error.
pub uninterp spec fn strfmt_one(fmtstr: Seq<char>, key: Seq<char>, value: Seq<char>) -> Option<Seq<char>>;

/// `strfmt::strfmt` with a map holding the one variable `key`; the result is
/// named by `strfmt_one` and not stated further here.
#[verifier::external_body]
fn format_with_one(fmtstr: &str, key: &str, value: &str) -> (r: Option<String>)
    ensures
        opt_str_view(r) == strfmt_one(fmtstr@, key@, value@),
{
    let mut vars = std::collections::HashMap::with_capacity(1);
    vars.insert(key.to_owned(), value.to_owned());
    strfmt::strfmt(fmtstr, &vars).ok()
}

/// Whether a text is one page number placeholder as `PAGE_NUMBER_PATTERN`
/// describes it: `{`, an optional `0`, `p`, then optionally `:` followed by
/// characters other than a line feed (what the pattern's `.` matches), and `}`.
pub open spec fn is_placeholder(s: Seq<char>) -> bool {
    s.len() >= 3 && s[0] == '{' && s.last() == '}' && {
        let inner = s.subrange(1, s.len() - 1);
        let rest = if inner[0] == '0' {
            inner.drop_first()
        } else {
            inner
        };
        &&& rest.len() >= 1
        &&& rest[0] == 'p'
        &&& rest.len() == 1 || (rest[1] == ':' && forall|k: int|
            2 <= k < rest.len() ==> rest[k] != '\n')
    }
}

/// Whether a path holds a page number placeholder somewhere: what
/// `PAGE_NUMBER_PATTERN` matches, by `Regex::is_match`, which searches the whole
/// text.
pub open spec fn spec_has_placeholder(path: Seq<char>) -> bool {
    exists|i: int, j: int| 0 <= i < j <= path.len() && #[trigger] is_placeholder(path.subrange(i, j))
}

/// `regex::Regex::new(PAGE_NUMBER_PATTERN)` and `Regex::is_match`: the pattern
/// is a valid regex, so `Regex::new` succeeds, and the regex matches exactly
/// where `spec_has_placeholder` holds.
#[verifier::external_body]
pub(crate) fn has_placeholder(path: &str) -> (r: bool)
    ensures
        r == spec_has_placeholder(path@),
{
    match regex::Regex::new(PAGE_NUMBER_PATTERN) {
        Ok(re) => re.is_match(path),
        Err(_) => false,
    }
}

// ---------------------------------------------------------------------------
// Single or multiple output files
// ---------------------------------------------------------------------------

/// An output given on the command line: a file, or `-` for the standard output.
#[derive(Debug, Clone, PartialEq, Eq)]
pub enum OutputTarget {
    Stdout,
    File(String),
}

/// The output plurality given on the command line.
#[derive(Debug, Clone, Copy, PartialEq, Eq, Hash, Structural)]
pub enum OutputPluralityArg {
    Auto,
    Single,
    Multi,
}

/// Whether to write one file for the article or one file per page.
#[derive(Debug, Clone, Copy, PartialEq, Eq, Hash, Structural)]
pub enum OutputPlurality {
    /// `Single` for an article of at most one page, `Multi` otherwise.
    Auto,
    Single,
    Multi,
}

impl Default for OutputPlurality {
    fn default() -> (r: OutputPlurality)
        ensures
            r == OutputPlurality::Auto,
    {
        OutputPlurality::Auto
    }
}

impl OutputPlurality {
    pub fn from(arg: OutputPluralityArg) -> (r: OutputPlurality)
        ensures
            r == match arg {
                OutputPluralityArg::Auto => OutputPlurality::Auto,
                OutputPluralityArg::Single => OutputPlurality::Single,
                OutputPluralityArg::Multi => OutputPlurality::Multi,
            },
    {
        match arg {
            OutputPluralityArg::Auto => OutputPlurality::Auto,
            OutputPluralityArg::Single => OutputPlurality::Single,
            OutputPluralityArg::Multi => OutputPlurality::Multi,
        }
    }

    /// Whether an article of `page_count` pages is written page by page.
    pub fn is_multi(self, page_count: usize) -> (r: bool)
        ensures
            r == match self {
                OutputPlurality::Auto => page_count > 1,
                OutputPlurality::Single => false,
                OutputPlurality::Multi => true,
            },
    {
        match self {
            OutputPlurality::Auto => page_count > 1,
            OutputPlurality::Single => false,
            OutputPlurality::Multi => true,
        }
    }
}

/// Whether to fetch images from their URLs.
#[derive(Debug, Clone, Copy, PartialEq, Eq)]
pub struct UrlFetchOptions {
    pub offline: bool,
}

// ---------------------------------------------------------------------------
// MomoTalk output to a single file
// ---------------------------------------------------------------------------

#[derive(Debug)]
pub enum MomotalkOutputError {
    /// The article has several pages while one file was asked for.
    MultiplePages,
    /// The article has no page while one file per page was asked for.
    NoPage,
    /// One file per page cannot go to the standard output.
    StdoutForPages,
    /// The output path pattern could not be filled in for a page.
    PathFormat,
    /// The article cannot be exported.
    Export(MomotalkExportError),
}

/// What is written for an article in a single MomoTalk file: export number 1
/// with the talk history of the article's only page (empty for no page);
/// refused for more pages than one.
pub open spec fn spec_single_export(article: domain::SpecArticle) -> SpecOutcome<Seq<SpecTalkHistoryItem>> {
    if article.pages.len() == 0 {
        SpecOutcome::Done(seq![])
    } else {
        spec_talk_history(article.pages[0], article.lang)
    }
}

/// The single MomoTalk export of an article of at most one page.
pub fn momotalk_single(article: Article) -> (r: Result<MomotalkExport, MomotalkOutputError>)
    requires
        article@.pages.len() <= 1 ==> !(spec_single_export(article@) is NeedsDataUrl),
    ensures
        article@.pages.len() > 1 ==> r matches Err(MomotalkOutputError::MultiplePages),
        article@.pages.len() <= 1 ==> match spec_single_export(article@) {
            SpecOutcome::Done(h) => r matches Ok(e) && e.talk_id == 1 && items_view(e.talk_history@) == h
                && e.select_list@.len() == 0,
            SpecOutcome::Failed(err) => r matches Err(MomotalkOutputError::Export(x)) && x@ == err,
            SpecOutcome::NeedsDataUrl => false,
        },
{
    let lang = article.lang;
    let ghost av = article@;
    let mut pages = article.into_pages();
    if pages.len() > 1 {
        return Err(MomotalkOutputError::MultiplePages);
    }
    let talk_history = match pages.pop() {
        Some(page) => {
            proof {
                assert(page@ == av.pages[0]);
            }
            match TalkHistoryItem::try_from_msgs(AndLang { value: page.into_msgs(), lang }) {
                Ok(h) => h,
                Err(e) => return Err(MomotalkOutputError::Export(e)),
            }
        },
        None => {
            let h: Vec<TalkHistoryItem> = Vec::new();
            proof {
                assert(items_view(h@) =~= Seq::<SpecTalkHistoryItem>::empty());
            }
            h
        },
    };
    Ok(MomotalkExport { talk_id: 1, talk_history, select_list: Vec::new() })
}

// ---------------------------------------------------------------------------
// MomoTalk output to one file per page
// ---------------------------------------------------------------------------

/// Where the files of the pages go: paths made from a pattern with a page
/// number placeholder, or a directory with numbered files named after the input.
#[derive(Debug, Clone, PartialEq, Eq)]
pub enum MultiPath {
    Fmtstr(String),
    Dir { path: String, filename: String },
}

/// The file of one page.
#[derive(Debug, Clone, PartialEq, Eq)]
pub enum PageFile {
    /// A file named `file_name` in the directory `dir`.
    InDir { dir: String, file_name: String },
    /// The file at this path.
    Path(String),
}

pub open spec fn spec_multi_path(output: Option<OutputTarget>, input_stem: Seq<char>) -> Option<(bool, Seq<char>)> {
    match output {
        Some(OutputTarget::Stdout) => None,
        Some(OutputTarget::File(name)) => Some((spec_has_placeholder(name@), name@)),
        None => Some((false, input_stem)),
    }
}

impl MultiPath {
    /// Where the page files go: for a given output file, the pattern it is
    /// where it holds a page number placeholder, else the directory it names;
    /// without output, the directory named after the input. Files in a
    /// directory are named after the input. The standard output is refused.
    pub fn resolve(output: Option<OutputTarget>, input_stem: String) -> (r: Result<MultiPath, MomotalkOutputError>)
        ensures
            match spec_multi_path(output, input_stem@) {
                None => r matches Err(MomotalkOutputError::StdoutForPages),
                Some((true, p)) => r matches Ok(MultiPath::Fmtstr(f)) && f@ == p,
                Some((false, p)) => r matches Ok(MultiPath::Dir { path, filename }) && path@ == p
                    && filename@ == input_stem@,
            },
    {
        match output {
            Some(OutputTarget::Stdout) => Err(MomotalkOutputError::StdoutForPages),
            Some(OutputTarget::File(name)) => {
                if has_placeholder(name.as_str()) {
                    Ok(MultiPath::Fmtstr(name))
                } else {
                    Ok(MultiPath::Dir { path: name, filename: input_stem })
                }
            },
            None => {
                let path = input_stem.clone();
                Ok(MultiPath::Dir { path, filename: input_stem })
            },
        }
    }
}

/// The name of the file of page `i` in a directory: the input's name, `_`, the
/// page number right-aligned to the width of the page count, and `.json`.
pub open spec fn spec_page_file_name(filename: Seq<char>, i: nat, width: nat) -> Seq<char> {
    filename + "_"@ + right_aligned(decimal(i), width) + ".json"@
}

/// The width of the page numbers of `count` pages: the number of digits of `count`.
pub open spec fn spec_page_number_width(count: nat) -> nat {
    decimal(count).len()
}

/// The file of page `i` (from 1) of `count` pages.
pub open spec fn spec_page_file(path: MultiPath, i: nat, count: nat) -> Option<(Option<Seq<char>>, Seq<char>)> {
    match path {
        MultiPath::Dir { path, filename } => Some(
            (Some(path@), spec_page_file_name(filename@, i, spec_page_number_width(count))),
        ),
        MultiPath::Fmtstr(f) => match strfmt_one(f@, PAGE_NUMBER_PLACEHOLDER@, decimal(i)) {
            Some(p) => Some((None, p)),
            None => None,
        },
    }
}

/// Decimal digits are never spaces.
proof fn lemma_decimal_no_space(n: nat)
    ensures
        forall|k: int| 0 <= k < decimal(n).len() ==> decimal(n)[k] != ' ',
    decreases n,
{
    crate::text::lemma_digit_char(n % 10, 0);
    if n >= 10 {
        lemma_decimal_no_space(n / 10);
        assert forall|k: int| 0 <= k < decimal(n).len() implies decimal(n)[k] != ' ' by {
            if k < decimal(n).len() - 1 {
                assert(decimal(n)[k] == decimal(n / 10)[k]);
            }
        }
    }
}

/// Different numbers have different decimal digits.
proof fn lemma_decimal_injective(m: nat, n: nat)
    requires
        decimal(m) == decimal(n),
    ensures
        m == n,
    decreases m,
{
    crate::text::lemma_decimal_len(m);
    crate::text::lemma_decimal_len(n);
    crate::text::lemma_digit_char(m % 10, n % 10);
    if m < 10 && n < 10 {
        assert(decimal(m) == seq![digit_char(m)]);
        assert(decimal(n) == seq![digit_char(n)]);
        assert(decimal(m)[0] == digit_char(m));
        assert(decimal(n)[0] == digit_char(n));
        assert(decimal(m)[0] == decimal(n)[0]);
        assert(digit_char(m) == digit_char(n));
        assert(m % 10 == m && n % 10 == n);
    } else if m >= 10 && n >= 10 {
        assert(decimal(m).drop_last() =~= decimal(m / 10));
        assert(decimal(n).drop_last() =~= decimal(n / 10));
        assert(decimal(m) == decimal(m / 10).push(digit_char(m % 10)));
        assert(decimal(n) == decimal(n / 10).push(digit_char(n % 10)));
        let lm = decimal(m).len() - 1;
        let ln = decimal(n).len() - 1;
        assert(lm == ln);
        assert(decimal(m)[lm] == digit_char(m % 10));
        assert(decimal(n)[ln] == digit_char(n % 10));
        assert(digit_char(m % 10) == digit_char(n % 10));
        lemma_decimal_injective(m / 10, n / 10);
        assert(m % 10 == n % 10);
    } else if m < 10 {
        crate::text::lemma_decimal_len(n / 10);
        assert(decimal(n).len() >= 2);
    } else {
        crate::text::lemma_decimal_len(m / 10);
        assert(decimal(m).len() >= 2);
    }
}

/// A number has no more decimal digits than a larger one.
proof fn lemma_decimal_len_monotonic(m: nat, n: nat)
    requires
        m <= n,
    ensures
        decimal(m).len() <= decimal(n).len(),
    decreases n,
{
    if m >= 10 {
        lemma_decimal_len_monotonic(m / 10, n / 10);
    }
}

/// Numbers right-aligned to a width at least as large as their digits are
/// equal only when the numbers are.
proof fn lemma_right_aligned_injective(m: nat, n: nat, width: nat)
    requires
        decimal(m).len() <= width,
        decimal(n).len() <= width,
        right_aligned(decimal(m), width) == right_aligned(decimal(n), width),
    ensures
        m == n,
{
    let dm = decimal(m);
    let dn = decimal(n);
    let am = right_aligned(dm, width);
    let an = right_aligned(dn, width);
    lemma_decimal_no_space(m);
    lemma_decimal_no_space(n);
    crate::text::lemma_decimal_len(m);
    crate::text::lemma_decimal_len(n);
    assert(am.len() == width);
    assert(an.len() == width);
    if dm.len() == dn.len() {
        assert(dm =~= am.subrange(width - dm.len(), width as int));
        assert(dn =~= an.subrange(width - dn.len(), width as int));
        lemma_decimal_injective(m, n);
    } else if dm.len() < dn.len() {
        let k = width - dn.len();
        assert(an[k] == dn[0]);
        assert(am[k] == ' ');
    } else {
        let k = width - dm.len();
        assert(am[k] == dm[0]);
        assert(an[k] == ' ');
    }
}

/// Different pages of an article written into a directory go to different
/// files: no page overwrites another.
pub proof fn lemma_page_file_names_distinct(filename: Seq<char>, i: nat, j: nat, count: nat)
    requires
        1 <= i <= count,
        1 <= j <= count,
        i != j,
    ensures
        spec_page_file_name(filename, i, spec_page_number_width(count)) != spec_page_file_name(
            filename,
            j,
            spec_page_number_width(count),
        ),
{
    let w = spec_page_number_width(count);
    lemma_decimal_len_monotonic(i, count);
    lemma_decimal_len_monotonic(j, count);
    let pi = right_aligned(decimal(i), w);
    let pj = right_aligned(decimal(j), w);
    let head = filename + "_"@;
    let tail = ".json"@;
    if spec_page_file_name(filename, i, w) == spec_page_file_name(filename, j, w) {
        assert(pi.len() == w && pj.len() == w);
        assert((head + pi + tail).subrange(head.len() as int, (head.len() + w) as int) =~= pi);
        assert((head + pj + tail).subrange(head.len() as int, (head.len() + w) as int) =~= pj);
        lemma_right_aligned_injective(i, j, w);
    }
}

impl MultiPath {
    /// The file of page `i` (counted from 1) of `count` pages.
    pub fn page_file(&self, i: usize, count: usize) -> (r: Result<PageFile, MomotalkOutputError>)
        ensures
            match spec_page_file(*self, i as nat, count as nat) {
                Some((Some(dir), name)) => r matches Ok(PageFile::InDir { dir: d, file_name: n })
                    && d@ == dir && n@ == name,
                Some((None, p)) => r matches Ok(PageFile::Path(q)) && q@ == p,
                None => r matches Err(MomotalkOutputError::PathFormat),
            },
    {
        match self {
            MultiPath::Dir { path, filename } => {
                let width = crate::text::digit_count(count);
                let mut name = filename.clone();
                name.append("_");
                push_right_aligned_decimal(&mut name, i, width);
                name.append(".json");
                Ok(PageFile::InDir { dir: path.clone(), file_name: name })
            },
            MultiPath::Fmtstr(f) => {
                let mut number = String::new();
                crate::text::push_decimal(&mut number, i);
                proof {
                    assert(number@ =~= decimal(i as nat));
                }
                match format_with_one(f.as_str(), PAGE_NUMBER_PLACEHOLDER, number.as_str()) {
                    Some(p) => Ok(PageFile::Path(p)),
                    None => Err(MomotalkOutputError::PathFormat),
                }
            },
        }
    }
}

/// The MomoTalk exports of an article written one file per page: refused
/// when the article has no page.
pub fn momotalk_multi(article: Article) -> (r: Result<Vec<MomotalkExport>, MomotalkOutputError>)
    requires
        !(spec_exports(article@) is NeedsDataUrl),
    ensures
        match spec_exports(article@) {
            SpecOutcome::Done(ex) => if ex.len() == 0 {
                r matches Err(MomotalkOutputError::NoPage)
            } else {
                r matches Ok(v) && exports_view(v@) == ex
            },
            SpecOutcome::Failed(err) => r matches Err(MomotalkOutputError::Export(x)) && x@ == err,
            SpecOutcome::NeedsDataUrl => false,
        },
{
    match MomotalkExport::try_from_article(article) {
        Ok(exports) => {
            if exports.len() == 0 {
                Err(MomotalkOutputError::NoPage)
            } else {
                Ok(exports)
            }
        },
        Err(e) => Err(MomotalkOutputError::Export(e)),
    }
}

/// The single-file export of a one-page article agrees with the export of
/// that article to one file per page: it holds the talk history of the one
/// export there is, and fails, or needs a data URL, exactly as that does.
pub proof fn lemma_single_export_is_the_page_export(article: domain::SpecArticle)
    requires
        article.pages.len() == 1,
    ensures
        match (spec_single_export(article), spec_exports(article)) {
            (SpecOutcome::Done(h), SpecOutcome::Done(exports)) => exports.len() == 1
                && exports[0].talk_id == 1 && exports[0].talk_history == h,
            (SpecOutcome::Failed(e), SpecOutcome::Failed(f)) => e == f,
            (SpecOutcome::NeedsDataUrl, SpecOutcome::NeedsDataUrl) => true,
            _ => false,
        },
{
    let pages = article.pages;
    assert(pages.drop_last() =~= Seq::<Seq<domain::SpecMsg>>::empty());
    assert(crate::model::momotalk::spec_page_exports(pages.drop_last(), article.lang) == SpecOutcome::<
        Seq<crate::model::momotalk::SpecMomotalkExport>,
    >::Done(seq![]));
    assert(pages.last() == pages[0]);
}

/// The single-file export of a one-page article speaks the article's
/// language: it has one entry per message of the page, and the entry of a
/// reply or of a bond story has the name of that role in the article's
/// language.
pub proof fn lemma_single_export_in_article_lang(article: domain::SpecArticle, i: int)
    requires
        article.pages.len() == 1,
        spec_single_export(article) is Done,
        0 <= i < article.pages[0].len(),
    ensures
        ({
            let h = spec_single_export(article)->Done_0;
            let msg = article.pages[0][i];
            &&& h.len() == article.pages[0].len()
            &&& msg.role == domain::Role::Reply ==> h[i].name == crate::model::momotalk::reply_name(article.lang)
            &&& msg.role == domain::Role::BondStory ==> h[i].name == crate::model::momotalk::story_name(article.lang)
        }),
{
    crate::model::momotalk::lemma_talk_history_entries(article.pages[0], article.lang, i);
    crate::model::momotalk::lemma_entry_fields(article.pages[0][i], article.lang, i + 1);
}

} // verus!
