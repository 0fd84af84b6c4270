//! The identifier model: fixed-width server and user identifiers.
//!
//! A server identifier is exactly 3 characters, the first a decimal digit
//! and the other two digits or upper-case letters.  A user identifier is
//! exactly 9 characters whose first 3 form a valid server identifier (the
//! introducing server); the remaining 6 are an allocator-assigned suffix.

use vstd::prelude::*;
use vstd::string::StrSliceExecFns;
use vstd::string::StringExecFns;
use crate::text::chars_to_string;
use crate::text::str_to_chars;

verus! {

/// A decimal digit.
pub open spec fn is_digit_char(c: char) -> bool {
    '0' <= c && c <= '9'
}

/// An upper-case letter.
pub open spec fn is_upper_char(c: char) -> bool {
    'A' <= c && c <= 'Z'
}

/// A character allowed after the first position of a server identifier.
pub open spec fn is_sid_char(c: char) -> bool {
    is_digit_char(c) || is_upper_char(c)
}

/// A valid server identifier: 3 characters, a digit then two
/// digit-or-upper-case characters.
pub open spec fn is_valid_server_id(s: Seq<char>) -> bool {
    &&& s.len() == 3
    &&& is_digit_char(s[0])
    &&& is_sid_char(s[1])
    &&& is_sid_char(s[2])
}

/// A valid user identifier: 9 characters whose first 3 are a valid
/// server identifier.
pub open spec fn is_valid_user_id(s: Seq<char>) -> bool {
    &&& s.len() == 9
    &&& is_valid_server_id(s.subrange(0, 3))
}

/// Why a string was rejected as an identifier.
#[derive(Clone, Copy, Debug, PartialEq, Eq, Structural)]
pub enum IdParseError {
    InvalidFormat,
}

/// A validated 3-character server identifier.  Immutable once constructed;
/// invalid strings are rejected at construction.
#[derive(Clone, Debug, PartialEq, Eq, Hash)]
pub struct ServerId {
    text: String,
}

impl View for ServerId {
    type V = Seq<char>;

    closed spec fn view(&self) -> Seq<char> {
        self.text@
    }
}

impl ServerId {
    /// Whether a string is a well-formed server identifier.
    pub fn is_server_id(id: &str) -> (b: bool)
        ensures
            b == is_valid_server_id(id@),
    {
        if id.unicode_len() != 3 {
            return false;
        }
        let c0 = id.get_char(0);
        let c1 = id.get_char(1);
        let c2 = id.get_char(2);
        ('0' <= c0 && c0 <= '9') && (('0' <= c1 && c1 <= '9') || ('A' <= c1 && c1 <= 'Z')) && (('0'
            <= c2 && c2 <= '9') || ('A' <= c2 && c2 <= 'Z'))
    }

    /// Parses a server identifier; succeeds exactly on valid strings and
    /// then round-trips to the same characters.
    pub fn parse(s: &str) -> (r: Result<ServerId, IdParseError>)
        ensures
            r is Ok <==> is_valid_server_id(s@),
            r is Ok ==> r->Ok_0@ == s@,
            r is Err ==> r->Err_0 == IdParseError::InvalidFormat,
    {
        if Self::is_server_id(s) {
            Ok(ServerId { text: String::from_str(s) })
        } else {
            Err(IdParseError::InvalidFormat)
        }
    }

    /// The identifier's characters, in order.
    pub fn to_vec(&self) -> (v: Vec<char>)
        ensures
            v@ == self@,
    {
        str_to_chars(self.text.as_str())
    }

    /// The identifier as a fresh string.
    pub fn into_string(&self) -> (s: String)
        ensures
            s@ == self@,
    {
        self.text.clone()
    }

    /// A copy holding the same characters.
    pub fn clone_id(&self) -> (r: ServerId)
        ensures
            r@ == self@,
    {
        ServerId { text: self.text.clone() }
    }
}

/// A validated 9-character user identifier.  Globally unique by
/// construction discipline: the allocator never hands the same suffix out
/// twice for one server identifier.
#[derive(Clone, Debug, PartialEq, Eq, Hash)]
pub struct UserId {
    text: String,
}

impl View for UserId {
    type V = Seq<char>;

    closed spec fn view(&self) -> Seq<char> {
        self.text@
    }
}

impl UserId {
    /// Parses a user identifier; succeeds exactly on 9-character strings
    /// whose first 3 characters independently parse as a server identifier.
    pub fn parse(s: &str) -> (r: Result<UserId, IdParseError>)
        ensures
            r is Ok <==> is_valid_user_id(s@),
            r is Ok ==> r->Ok_0@ == s@,
            r is Err ==> r->Err_0 == IdParseError::InvalidFormat,
    {
        if s.unicode_len() != 9 {
            return Err(IdParseError::InvalidFormat);
        }
        let prefix = s.substring_char(0, 3);
        if ServerId::is_server_id(prefix) {
            Ok(UserId { text: String::from_str(s) })
        } else {
            Err(IdParseError::InvalidFormat)
        }
    }

    /// Joins a server identifier and a 6-character allocator suffix into a
    /// user identifier.
    pub fn from_parts(sid: &ServerId, suffix: &Vec<char>) -> (r: UserId)
        requires
            is_valid_server_id(sid@),
            suffix@.len() == 6,
        ensures
            r@ == sid@ + suffix@,
            is_valid_user_id(r@),
    {
        let mut text = sid.into_string();
        let tail = chars_to_string(suffix);
        text.append(tail.as_str());
        proof {
            assert((sid@ + suffix@).subrange(0, 3) =~= sid@);
        }
        UserId { text }
    }

    /// The identifier's characters, in order.
    pub fn to_vec(&self) -> (v: Vec<char>)
        ensures
            v@ == self@,
    {
        str_to_chars(self.text.as_str())
    }

    /// The introducing server's identifier: the first 3 characters.
    pub fn get_server_id(&self) -> (r: ServerId)
        requires
            is_valid_user_id(self@),
        ensures
            r@ == self@.subrange(0, 3),
            is_valid_server_id(r@),
    {
        let prefix = self.text.as_str().substring_char(0, 3);
        ServerId { text: String::from_str(prefix) }
    }

    /// The allocator-assigned suffix: the last 6 characters.
    pub fn get_id(&self) -> (v: Vec<char>)
        requires
            self@.len() == 9,
        ensures
            v@ == self@.subrange(3, 9),
    {
        let tail = self.text.as_str().substring_char(3, 9);
        str_to_chars(tail)
    }

    /// The identifier as a fresh string.
    pub fn into_string(&self) -> (s: String)
        ensures
            s@ == self@,
    {
        self.text.clone()
    }

    /// A copy holding the same characters.
    pub fn clone_id(&self) -> (r: UserId)
        ensures
            r@ == self@,
    {
        UserId { text: self.text.clone() }
    }

    /// Whether two user identifiers hold the same characters.
    pub fn same_as(&self, other: &UserId) -> (b: bool)
        ensures
            b == (self@ == other@),
    {
        self.text.eq(&other.text)
    }
}

} // verus!
