use luatalk::cmd::conf::DoTypstCompileConfig;
use luatalk::cmd::generate::{Asset, AssetArg, AssetFile, ExampleLang, License, LicenseArg};
use luatalk::cmd::input::{file_stem_or, InputFormat, InputFormatArg, InputFormatError};
use luatalk::cmd::locale::{lang, SupportedLang};
use luatalk::cmd::output::{momotalk_multi, momotalk_single, MomotalkOutputError, MultiPath, OutputPlurality, OutputTarget, PageFile};
use luatalk::cmd::typst::{check_typst_cli_version, compile_format, compile_output, extract_version, temp_file_prefix, typst_output_files, TypstCompileError, TypstCompileFormat, TypstCompileFormatArg, VersionError};
use luatalk::talk::prepend_search_path;
use luatalk::{Article, Body, Lang, Msg, Page, Role, TextValue};

#[test]
fn test_extract_version() {
    let test_cases = vec![
        ("typst 0.15.0 (unknown commit)", Some("0.15.0".to_owned())),
        ("typst (unknown commit)", None),
    ];

    for (input, expected) in test_cases {
        assert_eq!(extract_version(input).ok(), expected);
    }
}

#[test]
fn typst_version_requirement() {
    assert_eq!(check_typst_cli_version("typst 0.15.0 (abc)"), Ok(()));
    assert_eq!(check_typst_cli_version("typst 0.16.1"), Ok(()));
    assert_eq!(
        check_typst_cli_version("typst 0.13.1"),
        Err(VersionError::Unsatisfied("0.13.1".to_owned()))
    );
    assert!(matches!(check_typst_cli_version("typst"), Err(VersionError::NotFound(_))));
}

#[test]
fn locale_to_language() {
    assert_eq!(SupportedLang::from("zh-CN"), SupportedLang::ZhHans);
    assert_eq!(SupportedLang::from("ZH_tw"), SupportedLang::ZhHans);
    assert_eq!(SupportedLang::from("en-US"), SupportedLang::En);
    assert_eq!(SupportedLang::from("ja-JP"), SupportedLang::En);
    assert_eq!(SupportedLang::from("z"), SupportedLang::En);
    assert_eq!(lang(None), SupportedLang::En);
    assert_eq!(lang(Some("zh")), SupportedLang::ZhHans);
}

#[test]
fn input_format_inference() {
    assert_eq!(InputFormat::infer(Some(InputFormatArg::Lua), true, "-"), Ok(InputFormat::Lua));
    assert_eq!(InputFormat::infer(None, true, "-"), Ok(InputFormat::Json));
    assert_eq!(InputFormat::infer(None, false, "dir/a.lua"), Ok(InputFormat::Lua));
    assert_eq!(InputFormat::infer(None, false, "a.json"), Ok(InputFormat::Json));
    assert_eq!(
        InputFormat::infer(None, false, "a.lua.bak"),
        Err(InputFormatError::UnknownExtension("a.lua.bak".to_owned()))
    );
    assert_eq!(
        InputFormat::infer(None, false, "article"),
        Err(InputFormatError::UnknownExtension("article".to_owned()))
    );
}

#[test]
fn typst_compile_format_and_output() {
    assert_eq!(compile_format(Some(TypstCompileFormat::Png), None), Ok(TypstCompileFormat::Png));
    assert_eq!(compile_format(None, Some("out.PDF")), Ok(TypstCompileFormat::Pdf));
    assert_eq!(compile_format(None, Some("out_{p}.png")), Ok(TypstCompileFormat::Png));
    assert_eq!(compile_format(None, None), Err(TypstCompileError::NoExtension));
    assert_eq!(compile_format(None, Some("out")), Err(TypstCompileError::NoExtension));
    assert_eq!(compile_format(None, Some("book.svg")), Ok(TypstCompileFormat::Svg));
    assert_eq!(compile_format(None, Some("book.SVG")), Ok(TypstCompileFormat::Svg));
    assert_eq!(
        compile_format(None, Some("out.txt")),
        Err(TypstCompileError::UnknownExtension("txt".to_owned()))
    );

    assert_eq!(compile_output(TypstCompileFormat::Pdf, None, "article"), "article.pdf");
    assert_eq!(compile_output(TypstCompileFormat::Pdf, Some("x/y.pdf"), "article"), "x/y.pdf");
    assert_eq!(compile_output(TypstCompileFormat::Png, None, "article"), "article/article_{0p}.png");
    assert_eq!(compile_output(TypstCompileFormat::Png, Some("pics"), "article"), "pics/article_{0p}.png");
    assert_eq!(compile_output(TypstCompileFormat::Png, Some("pics/a_{p}.png"), "article"), "pics/a_{p}.png");
    assert_eq!(compile_output(TypstCompileFormat::Png, Some("a_{0p:>3}.png"), "article"), "a_{0p:>3}.png");
    assert_eq!(TypstCompileFormat::Png.as_str(), "png");
}

#[test]
fn typst_compile_svg_gives_one_file_per_page() {
    assert_eq!(TypstCompileFormat::from(TypstCompileFormatArg::Svg), TypstCompileFormat::Svg);
    assert_eq!(TypstCompileFormat::Svg.as_str(), "svg");
    assert_eq!(compile_output(TypstCompileFormat::Svg, None, "a"), "a/a_{0p}.svg");
    assert_eq!(compile_output(TypstCompileFormat::Svg, Some("book.svg"), "a"), "book.svg/a_{0p}.svg");
    assert_eq!(compile_output(TypstCompileFormat::Svg, Some("book_{p}.svg"), "a"), "book_{p}.svg");
}

#[test]
fn typst_output_files_append_to_the_stem() {
    let (json, typ, data) = typst_output_files("dir/ch.1");
    assert_eq!(json, "dir/ch.1.json");
    assert_eq!(typ, "dir/ch.1.typ");
    assert_eq!(data, Some("ch.1.json".to_owned()));
    assert_eq!(
        typst_output_files("output"),
        ("output.json".to_owned(), "output.typ".to_owned(), Some("output.json".to_owned()))
    );
    assert_eq!(typst_output_files("a/b/").2, Some(".json".to_owned()));
}

#[test]
fn page_number_placeholder_is_recognised() {
    assert_eq!(compile_output(TypstCompileFormat::Png, Some("out_{0p}.png"), "a"), "out_{0p}.png");
    assert_eq!(compile_output(TypstCompileFormat::Png, Some("out_{p:}.png"), "a"), "out_{p:}.png");
    assert_eq!(compile_output(TypstCompileFormat::Png, Some("x{p}y}"), "a"), "x{p}y}");
    assert_eq!(compile_output(TypstCompileFormat::Png, Some("out_{q}"), "a"), "out_{q}/a_{0p}.png");
    assert_eq!(compile_output(TypstCompileFormat::Png, Some("out_{00p}"), "a"), "out_{00p}/a_{0p}.png");
    assert_eq!(compile_output(TypstCompileFormat::Png, Some("o{p:\n}"), "a"), "o{p:\n}/a_{0p}.png");
    assert_eq!(compile_output(TypstCompileFormat::Png, Some("o{p:\n}{p}"), "a"), "o{p:\n}{p}");
}

#[test]
fn file_stem_or_takes_the_input_file_stem() {
    assert_eq!(file_stem_or(true, "dir/book.lua", "output"), "book");
    assert_eq!(file_stem_or(true, "book", "output"), "book");
    assert_eq!(file_stem_or(true, "archive.tar.gz", "output"), "archive.tar");
    assert_eq!(file_stem_or(false, "-", "output"), "output");
    assert_eq!(file_stem_or(true, "", "output"), "output");
}

#[test]
fn typst_command_defaults_to_typst() {
    let conf = DoTypstCompileConfig { typst_command: String::new() };
    assert_eq!(conf.command(), "typst");
    let conf = DoTypstCompileConfig { typst_command: "/opt/typst".to_owned() };
    assert_eq!(conf.command(), "/opt/typst");
}

#[test]
fn plurality() {
    assert!(!OutputPlurality::Auto.is_multi(1));
    assert!(!OutputPlurality::Auto.is_multi(0));
    assert!(OutputPlurality::Auto.is_multi(2));
    assert!(!OutputPlurality::Single.is_multi(5));
    assert!(OutputPlurality::Multi.is_multi(1));
}

#[test]
fn multi_path_and_page_files() {
    assert!(matches!(
        MultiPath::resolve(Some(OutputTarget::Stdout), "ex".to_owned()),
        Err(MomotalkOutputError::StdoutForPages)
    ));
    let dir = MultiPath::resolve(None, "example".to_owned()).unwrap();
    assert_eq!(dir, MultiPath::Dir { path: "example".to_owned(), filename: "example".to_owned() });
    assert_eq!(
        dir.page_file(3, 12).unwrap(),
        PageFile::InDir { dir: "example".to_owned(), file_name: "example_ 3.json".to_owned() }
    );
    assert_eq!(
        dir.page_file(10, 12).unwrap(),
        PageFile::InDir { dir: "example".to_owned(), file_name: "example_10.json".to_owned() }
    );
    let out = MultiPath::resolve(Some(OutputTarget::File("output/dir".to_owned())), "example".to_owned()).unwrap();
    assert_eq!(out, MultiPath::Dir { path: "output/dir".to_owned(), filename: "example".to_owned() });
    let pattern = MultiPath::resolve(Some(OutputTarget::File("output/e_{p}.json".to_owned())), "example".to_owned()).unwrap();
    assert_eq!(pattern, MultiPath::Fmtstr("output/e_{p}.json".to_owned()));
    assert_eq!(pattern.page_file(7, 9).unwrap(), PageFile::Path("output/e_7.json".to_owned()));
    let broken = MultiPath::Fmtstr("e_{p".to_owned());
    assert!(matches!(broken.page_file(1, 1), Err(MomotalkOutputError::PathFormat)));
}

fn host(content: &str) -> Msg {
    Msg::new(Role::Host, Body::Text(TextValue::new(content.to_owned())), None)
}

#[test]
fn momotalk_single_and_multi() {
    let one = Article::new(Lang::En, vec![Page::new(vec![host("a")])]);
    let export = momotalk_single(one).unwrap();
    assert_eq!(export.talk_id, 1);
    assert_eq!(export.talk_history.len(), 1);
    assert!(momotalk_single(Article::new(Lang::En, vec![])).unwrap().talk_history.is_empty());
    let two = Article::new(Lang::En, vec![Page::new(vec![host("a")]), Page::new(vec![host("b")])]);
    assert!(matches!(momotalk_single(two.clone()), Err(MomotalkOutputError::MultiplePages)));
    assert_eq!(momotalk_multi(two).unwrap().len(), 2);
    assert!(matches!(momotalk_multi(Article::new(Lang::En, vec![])), Err(MomotalkOutputError::NoPage)));
}

#[test]
fn generate_selections() {
    assert_eq!(ExampleLang::resolve(None, SupportedLang::ZhHans).file(), AssetFile::ExampleZhHans);
    assert_eq!(ExampleLang::resolve(Some(ExampleLang::En), SupportedLang::ZhHans).file(), AssetFile::ExampleEn);
    assert_eq!(Asset::from(AssetArg::LuaLibTalk).file(), AssetFile::Talk);
    assert_eq!(Asset::from(AssetArg::LicenseHtml).file(), AssetFile::LicenseHtml);
    assert_eq!(License::from(LicenseArg::ThirdPartyLicenses).file(), AssetFile::LicenseHtml);
    assert_eq!(License::from(LicenseArg::Mit).file(), AssetFile::LicenseMit);
}

#[test]
fn search_path_is_prepended() {
    assert_eq!(prepend_search_path("/lib/?.lua;", "./?.lua;"), "/lib/?.lua;./?.lua;");
}

#[test]
fn page_files_in_a_directory_are_distinct() {
    let dir = MultiPath::Dir { path: "out".to_owned(), filename: "a".to_owned() };
    let names: Vec<String> = (1..=120)
        .map(|i| match dir.page_file(i, 120).unwrap() {
            PageFile::InDir { file_name, .. } => file_name,
            PageFile::Path(p) => p,
        })
        .collect();
    assert_eq!(names[0], "a_  1.json");
    assert_eq!(names[119], "a_120.json");
    let mut sorted = names.clone();
    sorted.sort();
    sorted.dedup();
    assert_eq!(sorted.len(), names.len());
}

#[test]
fn temp_file_prefix_names_the_article_hash() {
    let json = b"{\"lang\":\"en\",\"pages\":[]}\n";
    let hash = xxhash_rust::xxh3::xxh3_64(json).to_be_bytes();
    let expected = format!("output-{}-", data_encoding::BASE32HEX_NOPAD.encode(&hash));
    assert_eq!(temp_file_prefix(json), expected);
    assert_eq!(expected.len(), "output-".len() + 13 + 1);
    assert_ne!(temp_file_prefix(b"other"), expected);
}
