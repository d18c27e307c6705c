//! Who is asking: the contract an authentication provider meets, and the
//! two identities the library offers.
use vstd::prelude::*;

use crate::http::HttpRequest;
use crate::text::{owned, same_text};

verus! {

broadcast use vstd::string::group_string_axioms;

/// An identity that a request establishes, or refuses with the URL of a
/// login page to redirect to.
pub trait RspUserAuth: Sized {
    fn from_request<Req: HttpRequest>(req: &mut Req) -> Result<Self, String>;
}

/// The identity of pages open to everyone.
#[derive(Debug, Clone, Copy, Default)]
pub struct NoPageAuth {}

impl RspUserAuth for NoPageAuth {
    fn from_request<Req: HttpRequest>(_req: &mut Req) -> Result<NoPageAuth, String> {
        Ok(NoPageAuth {})
    }
}

pub open spec fn word_administrators() -> Seq<char> {
    seq!['a', 'd', 'm', 'i', 'n', 'i', 's', 't', 'r', 'a', 't', 'o', 'r', 's']
}

/// A signed-in user, kept in the session cookie.
#[derive(Debug, Clone)]
pub struct CookiePageAuth {
    pub username: String,
    /// Until when (seconds since the Unix epoch) the user holds elevated
    /// rights, if at all.
    super_admin_until: Option<i64>,
    groups: Vec<(String, bool)>,
}

impl CookiePageAuth {
    /// The names of the groups the user belongs to, with their flags.
    pub closed spec fn spec_groups(&self) -> Seq<(Seq<char>, bool)> {
        self.groups@.map_values(|g: (String, bool)| (g.0@, g.1))
    }

    pub closed spec fn spec_username(&self) -> Seq<char> {
        self.username@
    }

    pub closed spec fn spec_super_admin_until(&self) -> Option<i64> {
        self.super_admin_until
    }

    /// A user named `username`, in the groups given (none where absent).
    pub fn new(username: &str, arg_groups: Option<Vec<(String, bool)>>) -> (r: CookiePageAuth)
        ensures
            r.spec_username() == username@,
            r.spec_super_admin_until() is None,
            arg_groups matches Some(g) ==> r.spec_groups() == g@.map_values(|g: (String, bool)| (g.0@, g.1)),
            arg_groups is None ==> r.spec_groups().len() == 0,
    {
        let groups = match arg_groups {
            Some(g) => g,
            None => Vec::new(),
        };
        CookiePageAuth { username: owned(username), super_admin_until: None, groups }
    }

    /// A user with all of its parts given, as a stored session holds them.
    pub fn from_parts(username: String, super_admin_until: Option<i64>, groups: Vec<(String, bool)>) -> (r: CookiePageAuth)
        ensures
            r.spec_username() == username@,
            r.spec_super_admin_until() == super_admin_until,
            r.spec_groups() == groups@.map_values(|g: (String, bool)| (g.0@, g.1)),
    {
        CookiePageAuth { username, super_admin_until, groups }
    }

    pub fn super_admin_until(&self) -> (r: Option<i64>)
        ensures
            r == self.spec_super_admin_until(),
    {
        self.super_admin_until
    }

    pub fn groups(&self) -> (r: &Vec<(String, bool)>)
        ensures
            r@.map_values(|g: (String, bool)| (g.0@, g.1)) == self.spec_groups(),
    {
        &self.groups
    }

    /// Whether the user belongs to the group `administrators`.
    pub fn is_admin(&self) -> (r: bool)
        ensures
            r == exists|i: int| 0 <= i < self.spec_groups().len() && (#[trigger] self.spec_groups()[i]).0 == word_administrators(),
    {
        proof {
            reveal_strlit("administrators");
            assert("administrators"@ =~= word_administrators());
        }
        let n = self.groups.len();
        let mut i: usize = 0;
        while i < n
            invariant
                n == self.groups@.len(),
                i <= n,
                "administrators"@ == word_administrators(),
                forall|j: int| 0 <= j < i ==> (#[trigger] self.spec_groups()[j]).0 != word_administrators(),
            decreases n - i,
        {
            if same_text(self.groups[i].0.as_str(), "administrators") {
                assert(self.spec_groups()[i as int].0 == word_administrators());
                return true;
            }
            i += 1;
        }
        false
    }

    /// Elevated rights are never granted.
    pub fn is_super_admin(&self) -> (r: bool)
        ensures
            !r,
    {
        false
    }
}

impl RspUserAuth for CookiePageAuth {
    /// Without a session there is no user: the request goes to the login page.
    fn from_request<Req: HttpRequest>(_req: &mut Req) -> Result<CookiePageAuth, String> {
        Err(owned("/login"))
    }
}

} // verus!
