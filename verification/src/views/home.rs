//! The home page.

use vstd::prelude::*;

use crate::views::HtmlTemplate;

verus! {

/// The home page takes no values.
#[derive(Clone, Copy, Debug, PartialEq, Eq, Structural)]
pub struct HomeTemplate {}

/// The home page.
pub fn home() -> (r: HtmlTemplate<'static, HomeTemplate>)
    ensures
        r.filepath@ == "home.html"@,
{
    HtmlTemplate::new("home.html", HomeTemplate {  })
}

} // verus!
