//! Per-user mode flags and their rendered `+`-prefixed mode string.

use vstd::prelude::*;
use vstd::string::StringExecFns;

verus! {

/// One per-user mode flag.
#[derive(Clone, Copy, Debug, Hash, PartialEq, Eq, Structural)]
pub enum Usermode {
    Invisible,
    HostHiding,
}

/// The character one mode renders as.
pub open spec fn mode_char(m: Usermode) -> char {
    match m {
        Usermode::Invisible => 'i',
        Usermode::HostHiding => 'x',
    }
}

/// The rendered mode string: `'+'` followed by one character per mode.
pub open spec fn spec_mode_string(ms: Seq<Usermode>) -> Seq<char> {
    seq!['+'] + Seq::new(ms.len(), |i: int| mode_char(ms[i]))
}

impl Usermode {
    /// The mode's display character.
    pub fn to_char(&self) -> (c: char)
        ensures
            c == mode_char(*self),
    {
        match self {
            Usermode::Invisible => 'i',
            Usermode::HostHiding => 'x',
        }
    }
}

/// A user's mode set, in application order.
#[derive(Clone, Debug, Hash, PartialEq, Eq)]
pub struct Usermodes(pub Vec<Usermode>);

impl View for Usermodes {
    type V = Seq<Usermode>;

    open spec fn view(&self) -> Seq<Usermode> {
        self.0@
    }
}

impl Usermodes {
    /// Renders the mode set as its wire form, `"+"` then one character per
    /// mode.
    pub fn mode_string(&self) -> (s: String)
        ensures
            s@ == spec_mode_string(self@),
    {
        let mut s = String::from_str("+");
        proof {
            reveal_strlit("+");
            assert(s@ =~= seq!['+'] + Seq::new(0, |i: int| mode_char(self@[i])));
        }
        let mut i: usize = 0;
        while i < self.0.len()
            invariant
                i <= self@.len(),
                s@ == seq!['+'] + Seq::new(i as nat, |k: int| mode_char(self@[k])),
            decreases self@.len() - i,
        {
            match self.0[i] {
                Usermode::Invisible => {
                    proof {
                        reveal_strlit("i");
                    }
                    s.append("i");
                },
                Usermode::HostHiding => {
                    proof {
                        reveal_strlit("x");
                    }
                    s.append("x");
                },
            }
            proof {
                assert(s@ =~= seq!['+'] + Seq::new((i + 1) as nat, |k: int| mode_char(self@[k])));
            }
            i += 1;
        }
        proof {
            assert(s@ =~= spec_mode_string(self@));
        }
        s
    }

    /// A copy holding the same modes.
    pub fn clone_modes(&self) -> (r: Usermodes)
        ensures
            r@ == self@,
    {
        let mut v: Vec<Usermode> = Vec::new();
        let mut i: usize = 0;
        while i < self.0.len()
            invariant
                i <= self@.len(),
                v@ == self@.subrange(0, i as int),
            decreases self@.len() - i,
        {
            v.push(self.0[i]);
            proof {
                assert(v@ =~= self@.subrange(0, i + 1 as int));
            }
            i += 1;
        }
        proof {
            assert(self@.subrange(0, self@.len() as int) =~= self@);
        }
        Usermodes(v)
    }

    /// Whether two mode sets hold the same modes in the same order.
    pub fn same_as(&self, other: &Usermodes) -> (b: bool)
        ensures
            b == (self@ == other@),
    {
        if self.0.len() != other.0.len() {
            return false;
        }
        let mut i: usize = 0;
        while i < self.0.len()
            invariant
                i <= self@.len(),
                self@.len() == other@.len(),
                forall|k: int| 0 <= k < i ==> self@[k] == other@[k],
            decreases self@.len() - i,
        {
            if self.0[i] != other.0[i] {
                return false;
            }
            i += 1;
        }
        proof {
            assert(self@ =~= other@);
        }
        true
    }
}

impl Default for Usermodes {
    /// The default mode set: invisible, with host hiding.
    fn default() -> (r: Usermodes)
        ensures
            r@ =~= seq![Usermode::Invisible, Usermode::HostHiding],
    {
        let mut v: Vec<Usermode> = Vec::new();
        v.push(Usermode::Invisible);
        v.push(Usermode::HostHiding);
        Usermodes(v)
    }
}

} // verus!
