//! The permissions an access token may grant, and the names under which the
//! authorization server knows them.

use crate::query::joined;
use vstd::prelude::*;

verus! {

/// Defines what permissions the token should grant. By default, all are false.
#[derive(Clone, Copy, Debug)]
pub struct Scope {
    /// Use GET method on a user's Pins, boards.
    pub read_public: bool,
    /// Use PATCH, POST and DELETE methods on a user's Pins and boards.
    pub write_public: bool,
    /// Use GET method on a user's follows and followers (on boards, users and interests).
    pub read_relationships: bool,
    /// Use PATCH, POST and DELETE methods on a user's follows and followers (on boards, users and interests).
    pub write_relationships: bool,
}

/// The one name `name` if `flag` is set, and nothing otherwise.
pub open spec fn granted(flag: bool, name: Seq<char>) -> Seq<Seq<char>> {
    if flag {
        seq![name]
    } else {
        Seq::empty()
    }
}

/// The names of the permissions that `scope` grants, in the order in which
/// they are requested: `read_public`, `read_relationships`, `write_public`,
/// `write_relationships`. Note that the two `read` permissions come first.
pub open spec fn scope_names(scope: Scope) -> Seq<Seq<char>> {
    granted(scope.read_public, "read_public"@) + granted(
        scope.read_relationships,
        "read_relationships"@,
    ) + granted(scope.write_public, "write_public"@) + granted(
        scope.write_relationships,
        "write_relationships"@,
    )
}

/// 1 for a flag that is set, 0 for one that is not.
pub open spec fn one_if(flag: bool) -> nat {
    if flag {
        1
    } else {
        0
    }
}

/// How many of the four flags of `scope` are set.
pub open spec fn flag_count(scope: Scope) -> nat {
    one_if(scope.read_public) + one_if(scope.write_public) + one_if(scope.read_relationships)
        + one_if(scope.write_relationships)
}

/// Whether `name` is the name of a permission that `scope` grants.
pub open spec fn grants(scope: Scope, name: Seq<char>) -> bool {
    ||| scope.read_public && name == "read_public"@
    ||| scope.read_relationships && name == "read_relationships"@
    ||| scope.write_public && name == "write_public"@
    ||| scope.write_relationships && name == "write_relationships"@
}

/// The place of `name` in the order of request; 4 for a text that names no
/// permission.
pub open spec fn request_rank(name: Seq<char>) -> int {
    if name == "read_public"@ {
        0
    } else if name == "read_relationships"@ {
        1
    } else if name == "write_public"@ {
        2
    } else if name == "write_relationships"@ {
        3
    } else {
        4
    }
}

impl Default for Scope {
    fn default() -> (scope: Scope)
        ensures
            !scope.read_public,
            !scope.write_public,
            !scope.read_relationships,
            !scope.write_relationships,
    {
        Scope {
            read_public: false,
            write_public: false,
            read_relationships: false,
            write_relationships: false,
        }
    }
}

impl Scope {
    /// Resolves the flags into the scope names to request, skipping every
    /// flag that is not set.
    pub fn names(&self) -> (names: Vec<&'static str>)
        ensures
            names.deep_view() == scope_names(*self),
    {
        let mut names: Vec<&'static str> = Vec::new();
        if self.read_public {
            names.push("read_public");
        }
        if self.read_relationships {
            names.push("read_relationships");
        }
        if self.write_public {
            names.push("write_public");
        }
        if self.write_relationships {
            names.push("write_relationships");
        }
        assert(names.deep_view() =~= scope_names(*self));
        names
    }
}

/// Each permission name has a place of its own in the order of request, so
/// the four names are four different texts.
pub proof fn lemma_names_differ()
    ensures
        request_rank("read_public"@) == 0,
        request_rank("read_relationships"@) == 1,
        request_rank("write_public"@) == 2,
        request_rank("write_relationships"@) == 3,
{
    reveal_strlit("read_public");
    reveal_strlit("read_relationships");
    reveal_strlit("write_public");
    reveal_strlit("write_relationships");
    assert("read_public"@.len() == 11);
    assert("read_relationships"@.len() == 18);
    assert("write_public"@.len() == 12);
    assert("write_relationships"@.len() == 19);
}

/// A scope with `k` flags set resolves to `k` names: the names of the flags
/// that are set and no others, each one standing before those that come later
/// in the order of request.
pub proof fn lemma_scope_names(scope: Scope)
    ensures
        scope_names(scope).len() == flag_count(scope),
        forall|name: Seq<char>| scope_names(scope).contains(name) <==> grants(scope, name),
        forall|i: int, j: int|
            0 <= i < j < scope_names(scope).len() ==> request_rank(#[trigger] scope_names(scope)[i])
                < request_rank(#[trigger] scope_names(scope)[j]),
{
    lemma_names_differ();
    let names = scope_names(scope);
    assert forall|name: Seq<char>| names.contains(name) <==> grants(scope, name) by {
        if grants(scope, name) {
            let at = if name == "read_public"@ {
                0int
            } else if name == "read_relationships"@ {
                granted(scope.read_public, "read_public"@).len() as int
            } else if name == "write_public"@ {
                (granted(scope.read_public, "read_public"@) + granted(
                    scope.read_relationships,
                    "read_relationships"@,
                )).len() as int
            } else {
                names.len() - 1
            };
            assert(names[at] == name);
        }
    }
}

/// A scope that grants nothing resolves to no name, and so to an empty
/// `scope` parameter.
pub proof fn lemma_empty_scope(scope: Scope)
    requires
        flag_count(scope) == 0,
    ensures
        scope_names(scope) == Seq::<Seq<char>>::empty(),
        joined(scope_names(scope)) == Seq::<char>::empty(),
{
    assert(scope_names(scope) =~= Seq::<Seq<char>>::empty());
}

} // verus!
