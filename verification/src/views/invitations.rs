//! The page that lists the invitations.

use vstd::prelude::*;
use vstd::string::*;

use crate::errors::ErrorKind;
use crate::models::Invitation;
use crate::views::HtmlTemplate;

verus! {

/// One line of the list: the email and the path of the invitation's page.
#[derive(Clone, Debug)]
pub struct RenderedInvitation {
    pub email: String,
    pub path: String,
}

impl RenderedInvitation {
    /// Whether this is the line for `invitation`.
    pub open spec fn renders(&self, invitation: Invitation) -> bool {
        &&& self.email@ == invitation.email@
        &&& self.path@ == "/invitations/"@ + invitation.code@
    }

    pub fn from(invitation: Invitation) -> (r: Self)
        ensures
            r.renders(invitation),
    {
        RenderedInvitation::of(&invitation)
    }

    /// The line for an invitation that stays with the caller.
    pub fn of(invitation: &Invitation) -> (r: Self)
        ensures
            r.renders(*invitation),
    {
        let path = String::from_str("/invitations/").concat(invitation.code.as_str());
        RenderedInvitation { email: invitation.email.clone(), path }
    }
}

#[derive(Clone, Debug)]
pub struct InvitationsTemplate {
    pub invitations: Vec<RenderedInvitation>,
}

#[derive(Clone, Copy, Debug, PartialEq, Eq, Structural)]
pub enum InvitationsError {
    NotFound,
}

impl InvitationsError {
    /// The kind of the failure.
    pub open spec fn kind_of(&self) -> ErrorKind {
        match self {
            InvitationsError::NotFound => ErrorKind::NotFound,
        }
    }

    pub fn kind(&self) -> (r: ErrorKind)
        ensures
            r == self.kind_of(),
    {
        match self {
            InvitationsError::NotFound => ErrorKind::NotFound,
        }
    }

    pub open spec fn text(&self) -> Seq<char> {
        "invitations couldn't be found"@
    }

    pub fn message(&self) -> (r: String)
        ensures
            r@ == self.text(),
    {
        String::from_str("invitations couldn't be found")
    }
}

/// Whether `page` lists `listed`: one line for each invitation, in their order.
pub open spec fn lists(page: HtmlTemplate<'static, InvitationsTemplate>, listed: Seq<Invitation>) -> bool {
    &&& page.filepath@ == "invitations.html"@
    &&& page.template.invitations@.len() == listed.len()
    &&& forall|i: int|
        0 <= i < listed.len() ==> (#[trigger] page.template.invitations@[i]).renders(listed[i])
}

/// The page for what the store listed, or `NotFound` when the store failed.
pub fn invitations(listed: Option<Vec<Invitation>>) -> (r: Result<
    HtmlTemplate<'static, InvitationsTemplate>,
    InvitationsError,
>)
    ensures
        match listed {
            Some(list) => r matches Ok(page) && lists(page, list@),
            None => r == Err::<HtmlTemplate<'static, InvitationsTemplate>, InvitationsError>(
                InvitationsError::NotFound,
            ),
        },
{
    match listed {
        None => Err(InvitationsError::NotFound),
        Some(list) => {
            let mut lines: Vec<RenderedInvitation> = Vec::new();
            let mut i: usize = 0;
            while i < list.len()
                invariant
                    i <= list.len(),
                    lines@.len() == i,
                    forall|j: int| 0 <= j < i ==> (#[trigger] lines@[j]).renders(list@[j]),
                decreases list.len() - i,
            {
                lines.push(RenderedInvitation::of(&list[i]));
                i = i + 1;
            }
            Ok(HtmlTemplate::new("invitations.html", InvitationsTemplate { invitations: lines }))
        },
    }
}

} // verus!
