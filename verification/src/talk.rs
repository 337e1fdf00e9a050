//! Support for evaluating articles written with the Lua module `talk.lua`.

use vstd::prelude::*;

verus! {

/// The name under which the module `talk.lua` is loaded.
pub const LMOD_TALK: &'static str = "talk";

/// The Lua search path after additional search paths are put in front of the
/// current one, as `LuaExt::append_left_additional_path` sets `package.path`.
pub fn prepend_search_path(additional: &str, current: &str) -> (r: String)
    ensures
        r@ == additional@ + current@,
{
    let mut path = additional.to_owned();
    path.append(current);
    path
}

} // verus!
