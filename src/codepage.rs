//! Code pages of console input and output.

use vstd::prelude::*;

verus! {

/// The OEM United States code page.
pub const CP_IBM437: u32 = 437;

/// The UTF-7 code page.
pub const CP_UTF7: u32 = 65000;

/// The UTF-8 code page.
pub const CP_UTF8: u32 = 65001;

/// A code page identifier, such as [`CP_UTF8`].
#[derive(Clone, Copy, Debug, PartialEq, Eq, PartialOrd, Ord, Hash, Structural)]
pub struct CodePage(u32);

impl View for CodePage {
    type V = u32;

    closed spec fn view(&self) -> u32 {
        self.0
    }
}

impl CodePage {
    /// The name of a well-known code page, such as `"UTF8"`; `None` for another.
    pub fn name(self) -> (r: Option<&'static str>)
        ensures
            r is Some <==> (self@ == CP_IBM437 || self@ == CP_UTF7 || self@ == CP_UTF8),
            self@ == CP_IBM437 ==> r->Some_0@ == "IBM437"@,
            self@ == CP_UTF7 ==> r->Some_0@ == "UTF7"@,
            self@ == CP_UTF8 ==> r->Some_0@ == "UTF8"@,
    {
        match self.0 {
            CP_IBM437 => Some("IBM437"),
            CP_UTF7 => Some("UTF7"),
            CP_UTF8 => Some("UTF8"),
            _ => None,
        }
    }
}

impl From<u32> for CodePage {
    fn from(value: u32) -> Self {
        CodePage(value)
    }
}

impl vstd::std_specs::convert::FromSpecImpl<u32> for CodePage {
    open spec fn obeys_from_spec() -> bool {
        true
    }

    closed spec fn from_spec(v: u32) -> Self {
        CodePage(v)
    }
}

impl From<CodePage> for u32 {
    fn from(value: CodePage) -> Self {
        value.0
    }
}

impl vstd::std_specs::convert::FromSpecImpl<CodePage> for u32 {
    open spec fn obeys_from_spec() -> bool {
        true
    }

    closed spec fn from_spec(v: CodePage) -> Self {
        v.0
    }
}

/// A code page converted to its identifier and back is unchanged, and so is
/// an identifier converted to a code page and back.
pub proof fn lemma_code_page_round_trip(id: u32, cp: CodePage)
    ensures
        <CodePage as vstd::std_specs::convert::FromSpec<u32>>::from_spec(id)@ == id,
        <u32 as vstd::std_specs::convert::FromSpec<CodePage>>::from_spec(cp) == cp@,
        <CodePage as vstd::std_specs::convert::FromSpec<u32>>::from_spec(
            <u32 as vstd::std_specs::convert::FromSpec<CodePage>>::from_spec(cp),
        ) == cp,
{
}

} // verus!
