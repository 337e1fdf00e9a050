//! What `luatalk generate` writes out.

use vstd::prelude::*;

use crate::cmd::locale::SupportedLang;

verus! {

/// The language of the example given on the command line.
#[derive(Debug, Clone, Copy, PartialEq, Eq, Hash, Structural)]
pub enum ExampleLangArg {
    /// English
    En,
    /// Simplified Chinese
    ZhHans,
}

/// The language of the example article to write.
#[derive(Debug, Clone, Copy, PartialEq, Eq, Hash, Structural)]
pub enum ExampleLang {
    En,
    ZhHans,
}

/// An asset named on the command line.
#[derive(Debug, Clone, Copy, PartialEq, Eq, Hash, Structural)]
pub enum AssetArg {
    LuaInputExampleEn,
    LuaInputExampleZhHans,
    LuaLibTalk,
    TypstOutput,
    LicenseNotice,
    LicenseApache,
    LicenseMit,
    LicenseHtml,
}

/// An asset to write.
#[derive(Debug, Clone, Copy, PartialEq, Eq, Hash, Structural)]
pub enum Asset {
    LuaInputExampleEn,
    LuaInputExampleZhHans,
    LuaLibTalk,
    TypstOutput,
    LicenseNotice,
    LicenseApache,
    LicenseMit,
    LicenseHtml,
}

/// A license text named on the command line.
#[derive(Debug, Clone, Copy, PartialEq, Eq, Hash, Structural)]
pub enum LicenseArg {
    Notice,
    Apache,
    Mit,
    ThirdPartyLicenses,
}

/// A license text to write.
#[derive(Debug, Clone, Copy, PartialEq, Eq, Hash, Structural)]
pub enum License {
    Notice,
    Apache,
    Mit,
    ThirdPartyLicenses,
}

/// The files embedded in the program that `generate` writes out.
#[derive(Debug, Clone, Copy, PartialEq, Eq, Hash, Structural)]
pub enum AssetFile {
    /// `lua/input/example_en.lua`
    ExampleEn,
    /// `lua/input/example_zh-hans.lua`
    ExampleZhHans,
    /// `lua/lib/talk.lua`
    Talk,
    /// `typst/output.typ`
    TypstOutput,
    /// `license/NOTICE`
    Notice,
    /// `license/LICENSE-APACHE`
    LicenseApache,
    /// `license/LICENSE-MIT`
    LicenseMit,
    /// `license/license.html`
    LicenseHtml,
}

impl ExampleLang {
    pub fn from(arg: ExampleLangArg) -> (r: ExampleLang)
        ensures
            r == match arg {
                ExampleLangArg::En => ExampleLang::En,
                ExampleLangArg::ZhHans => ExampleLang::ZhHans,
            },
    {
        match arg {
            ExampleLangArg::En => ExampleLang::En,
            ExampleLangArg::ZhHans => ExampleLang::ZhHans,
        }
    }

    pub fn from_supported(lang: SupportedLang) -> (r: ExampleLang)
        ensures
            r == match lang {
                SupportedLang::En => ExampleLang::En,
                SupportedLang::ZhHans => ExampleLang::ZhHans,
            },
    {
        match lang {
            SupportedLang::En => ExampleLang::En,
            SupportedLang::ZhHans => ExampleLang::ZhHans,
        }
    }

    /// The language of the example: the one asked for, else that of the system.
    pub fn resolve(lang: Option<ExampleLang>, system: SupportedLang) -> (r: ExampleLang)
        ensures
            r == match lang {
                Some(l) => l,
                None => match system {
                    SupportedLang::En => ExampleLang::En,
                    SupportedLang::ZhHans => ExampleLang::ZhHans,
                },
            },
    {
        match lang {
            Some(l) => l,
            None => ExampleLang::from_supported(system),
        }
    }

    /// The example file in this language.
    pub fn file(self) -> (r: AssetFile)
        ensures
            r == match self {
                ExampleLang::En => AssetFile::ExampleEn,
                ExampleLang::ZhHans => AssetFile::ExampleZhHans,
            },
    {
        match self {
            ExampleLang::En => AssetFile::ExampleEn,
            ExampleLang::ZhHans => AssetFile::ExampleZhHans,
        }
    }
}

pub open spec fn spec_asset_of(arg: AssetArg) -> Asset {
    match arg {
        AssetArg::LuaInputExampleEn => Asset::LuaInputExampleEn,
        AssetArg::LuaInputExampleZhHans => Asset::LuaInputExampleZhHans,
        AssetArg::LuaLibTalk => Asset::LuaLibTalk,
        AssetArg::TypstOutput => Asset::TypstOutput,
        AssetArg::LicenseNotice => Asset::LicenseNotice,
        AssetArg::LicenseApache => Asset::LicenseApache,
        AssetArg::LicenseMit => Asset::LicenseMit,
        AssetArg::LicenseHtml => Asset::LicenseHtml,
    }
}

pub open spec fn spec_asset_file(asset: Asset) -> AssetFile {
    match asset {
        Asset::LuaInputExampleEn => AssetFile::ExampleEn,
        Asset::LuaInputExampleZhHans => AssetFile::ExampleZhHans,
        Asset::LuaLibTalk => AssetFile::Talk,
        Asset::TypstOutput => AssetFile::TypstOutput,
        Asset::LicenseNotice => AssetFile::Notice,
        Asset::LicenseApache => AssetFile::LicenseApache,
        Asset::LicenseMit => AssetFile::LicenseMit,
        Asset::LicenseHtml => AssetFile::LicenseHtml,
    }
}

impl Asset {
    pub fn from(arg: AssetArg) -> (r: Asset)
        ensures
            r == spec_asset_of(arg),
    {
        match arg {
            AssetArg::LuaInputExampleEn => Asset::LuaInputExampleEn,
            AssetArg::LuaInputExampleZhHans => Asset::LuaInputExampleZhHans,
            AssetArg::LuaLibTalk => Asset::LuaLibTalk,
            AssetArg::TypstOutput => Asset::TypstOutput,
            AssetArg::LicenseNotice => Asset::LicenseNotice,
            AssetArg::LicenseApache => Asset::LicenseApache,
            AssetArg::LicenseMit => Asset::LicenseMit,
            AssetArg::LicenseHtml => Asset::LicenseHtml,
        }
    }

    /// The embedded file that this asset names.
    pub fn file(self) -> (r: AssetFile)
        ensures
            r == spec_asset_file(self),
    {
        match self {
            Asset::LuaInputExampleEn => AssetFile::ExampleEn,
            Asset::LuaInputExampleZhHans => AssetFile::ExampleZhHans,
            Asset::LuaLibTalk => AssetFile::Talk,
            Asset::TypstOutput => AssetFile::TypstOutput,
            Asset::LicenseNotice => AssetFile::Notice,
            Asset::LicenseApache => AssetFile::LicenseApache,
            Asset::LicenseMit => AssetFile::LicenseMit,
            Asset::LicenseHtml => AssetFile::LicenseHtml,
        }
    }
}

impl License {
    pub fn from(arg: LicenseArg) -> (r: License)
        ensures
            r == match arg {
                LicenseArg::Notice => License::Notice,
                LicenseArg::Apache => License::Apache,
                LicenseArg::Mit => License::Mit,
                LicenseArg::ThirdPartyLicenses => License::ThirdPartyLicenses,
            },
    {
        match arg {
            LicenseArg::Notice => License::Notice,
            LicenseArg::Apache => License::Apache,
            LicenseArg::Mit => License::Mit,
            LicenseArg::ThirdPartyLicenses => License::ThirdPartyLicenses,
        }
    }

    /// The embedded file that holds this license text; the third-party
    /// licenses are the HTML license file.
    pub fn file(self) -> (r: AssetFile)
        ensures
            r == match self {
                License::Notice => AssetFile::Notice,
                License::Apache => AssetFile::LicenseApache,
                License::Mit => AssetFile::LicenseMit,
                License::ThirdPartyLicenses => AssetFile::LicenseHtml,
            },
    {
        match self {
            License::Notice => AssetFile::Notice,
            License::Apache => AssetFile::LicenseApache,
            License::Mit => AssetFile::LicenseMit,
            License::ThirdPartyLicenses => AssetFile::LicenseHtml,
        }
    }
}

} // verus!
