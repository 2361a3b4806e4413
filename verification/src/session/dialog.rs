//! Questions that the session asks at the terminal, and what the answers mean.
use crate::text;
use vstd::prelude::*;

verus! {

/// What the user lets the assistant do with a tool call.
#[derive(Debug, Clone, Copy, PartialEq, Eq, Structural)]
pub enum Permission {
    AllowOnce,
    AlwaysAllow,
    DenyOnce,
    Cancel,
}

/// What came of a question: an answer, an interruption by the user, or an error
/// of the terminal.
pub enum Answer<T> {
    Given(T),
    Interrupted,
    Failed(String),
}

/// The meaning of an answer, where an interruption stands for `otherwise`.
pub fn settle<T>(answer: Answer<T>, otherwise: T) -> (r: Result<T, String>)
    ensures
        r == match answer {
            Answer::Given(t) => Ok(t),
            Answer::Interrupted => Ok(otherwise),
            Answer::Failed(why) => Err(why),
        },
{
    match answer {
        Answer::Given(t) => Ok(t),
        Answer::Interrupted => Ok(otherwise),
        Answer::Failed(why) => Err(why),
    }
}

/// A choice among permissions: the permission, its label and a hint.
pub struct PermissionItem {
    pub permission: Permission,
    pub label: &'static str,
    pub hint: &'static str,
}

/// The question whether a tool may be called, with a warning to show before.
pub struct PermissionQuestion {
    pub warning: Option<String>,
    pub question: &'static str,
    pub items: Vec<PermissionItem>,
}

/// The choices for a tool call. To allow all later calls is no choice where there
/// is a warning.
pub open spec fn permission_items(warned: bool) -> Seq<(Permission, Seq<char>, Seq<char>)> {
    let allow = (Permission::AllowOnce, "Allow"@, "Allow the tool call once"@);
    let always = (Permission::AlwaysAllow, "Always Allow"@, "Always allow the tool call"@);
    let deny = (Permission::DenyOnce, "Deny"@, "Deny the tool call"@);
    let cancel = (Permission::Cancel, "Cancel"@, "Cancel the AI response and tool call"@);
    if warned {
        seq![allow, deny, cancel]
    } else {
        seq![allow, always, deny, cancel]
    }
}

/// The choices of a list.
pub open spec fn item_views(items: Seq<PermissionItem>) -> Seq<
    (Permission, Seq<char>, Seq<char>),
> {
    items.map_values(|i: PermissionItem| (i.permission, i.label@, i.hint@))
}

/// The question whether a tool may be called.
pub fn permission_question(security_prompt: Option<String>) -> (r: PermissionQuestion)
    ensures
        r.warning == security_prompt,
        r.question@ == if security_prompt is Some {
            "Do you allow this tool call?"@
        } else {
            "Goose would like to call the above tool, do you allow?"@
        },
        item_views(r.items@) == permission_items(security_prompt is Some),
{
    let allow = PermissionItem {
        permission: Permission::AllowOnce,
        label: "Allow",
        hint: "Allow the tool call once",
    };
    let deny = PermissionItem {
        permission: Permission::DenyOnce,
        label: "Deny",
        hint: "Deny the tool call",
    };
    let cancel = PermissionItem {
        permission: Permission::Cancel,
        label: "Cancel",
        hint: "Cancel the AI response and tool call",
    };
    if security_prompt.is_some() {
        let items = vec![allow, deny, cancel];
        assert(item_views(items@) =~= permission_items(true));
        PermissionQuestion {
            warning: security_prompt,
            question: "Do you allow this tool call?",
            items,
        }
    } else {
        let always = PermissionItem {
            permission: Permission::AlwaysAllow,
            label: "Always Allow",
            hint: "Always allow the tool call",
        };
        let items = vec![allow, always, deny, cancel];
        assert(item_views(items@) =~= permission_items(false));
        PermissionQuestion {
            warning: security_prompt,
            question: "Goose would like to call the above tool, do you allow?",
            items,
        }
    }
}

/// The permission that an answer gives: an interruption cancels.
pub fn given_permission(answer: Answer<Permission>) -> (r: Result<Permission, String>)
    ensures
        r == match answer {
            Answer::Given(p) => Ok::<Permission, String>(p),
            Answer::Interrupted => Ok(Permission::Cancel),
            Answer::Failed(why) => Err(why),
        },
{
    settle(answer, Permission::Cancel)
}

/// A tool call with a warning is never allowed for good.
pub proof fn law_no_lasting_permission_under_warning(i: int)
    requires
        0 <= i < permission_items(true).len(),
    ensures
        permission_items(true)[i].0 != Permission::AlwaysAllow,
{
}

// The offer to buy credits.

/// The web addresses that the user has been asked about.
pub struct TopUpOffers {
    pub asked: Vec<String>,
}

impl TopUpOffers {
    /// No address yet.
    pub fn new() -> (r: TopUpOffers)
        ensures
            r.asked@.len() == 0,
    {
        TopUpOffers { asked: Vec::new() }
    }

    /// Tells whether to ask about the address in a message: only someone at a
    /// terminal is asked, and only once about each address.
    pub fn maybe_open_credits_top_up_url(
        &mut self,
        interactive: bool,
        terminal: bool,
        url: Option<String>,
    ) -> (ask: bool)
        ensures
            ask == (interactive && terminal && url is Some && !text::texts(
                old(self).asked@,
            ).contains(url->0@)),
            final(self).asked@ == if ask {
                old(self).asked@.push(url->0)
            } else {
                old(self).asked@
            },
    {
        if !interactive || !terminal {
            return false;
        }
        let url = match url {
            Some(u) => u,
            None => {
                return false;
            },
        };
        if text::is_among(url.as_str(), &self.asked) {
            return false;
        }
        self.asked.push(url);
        true
    }
}

/// An address that was asked about is not asked about again.
pub proof fn law_each_address_is_offered_once(asked: Seq<String>, url: String)
    ensures
        text::texts(asked.push(url)).contains(url@),
{
    assert(text::texts(asked.push(url))[asked.len() as int] == url@);
}

} // verus!
