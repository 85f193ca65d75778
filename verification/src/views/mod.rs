//! The pages: which template to render, and with what.

use vstd::prelude::*;

pub mod home;
pub mod invitation;
pub mod invitations;
pub mod login;

verus! {

/// A page to render: the path of the template file and the values to fill it with.
#[derive(Clone, Debug)]
pub struct HtmlTemplate<'a, T> {
    pub filepath: &'a str,
    pub template: T,
}

impl<'a, T> HtmlTemplate<'a, T> {
    pub fn new(filepath: &'a str, template: T) -> (r: Self)
        ensures
            r.filepath@ == filepath@,
            r.template == template,
    {
        HtmlTemplate { filepath, template }
    }
}

} // verus!
