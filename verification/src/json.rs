//! JSON values, as far as the strip's reports and requests need them.
use vstd::prelude::*;
use crate::text::same;

verus! {

/// A JSON number, kept apart by how it was written.
#[derive(Debug)]
pub enum Number {
    /// A whole number that is not negative.
    Unsigned(u64),
    /// A negative whole number.
    Negative(i64),
    /// A number with a fraction or an exponent, by the bits of its double-precision value.
    Fractional(u64),
}

/// A JSON value.
#[derive(Debug)]
pub enum Json {
    Null,
    Bool(bool),
    Number(Number),
    Text(String),
    Array(Vec<Json>),
    Object(Vec<Member>),
}

/// A member of a JSON object.
#[derive(Debug)]
pub struct Member {
    pub key: String,
    pub value: Json,
}

/// The value of the first member named `key`.
pub open spec fn member(members: Seq<Member>, key: Seq<char>) -> Option<Json>
    decreases members.len(),
{
    if members.len() == 0 {
        None
    } else if members.first().key@ == key {
        Some(members.first().value)
    } else {
        member(members.drop_first(), key)
    }
}

impl Json {
    /// The member named `key`, if the value is an object that has one.
    pub open spec fn spec_get(self, key: Seq<char>) -> Option<Json> {
        match self {
            Json::Object(members) => member(members@, key),
            _ => None,
        }
    }

    /// The value as a whole number, if it is one that fits 64 bits with a sign.
    pub open spec fn spec_as_i64(self) -> Option<int> {
        match self {
            Json::Number(Number::Unsigned(n)) if n <= i64::MAX => Some(n as int),
            Json::Number(Number::Negative(n)) => Some(n as int),
            _ => None,
        }
    }

    /// Looks up a member of an object.
    pub fn get(&self, key: &str) -> (r: Option<&Json>)
        ensures
            match r {
                Some(value) => self.spec_get(key@) == Some(*value),
                None => self.spec_get(key@) is None,
            },
    {
        if let Json::Object(members) = self {
            let mut i: usize = 0;
            assert(members@.skip(0) == members@);
            while i < members.len()
                invariant
                    i <= members@.len(),
                    member(members@, key@) == member(members@.skip(i as int), key@),
                    self.spec_get(key@) == member(members@, key@),
                decreases members@.len() - i,
            {
                if same(members[i].key.as_str(), key) {
                    return Some(&members[i].value);
                }
                assert(members@.skip(i as int).drop_first() == members@.skip(i + 1));
                i = i + 1;
            }
            None
        } else {
            None
        }
    }

    /// Whether the value is the whole number `n`.
    pub fn is_number(&self, n: i64) -> (r: bool)
        ensures
            r == (self.spec_as_i64() == Some(n as int)),
    {
        match self {
            Json::Number(Number::Unsigned(m)) => n >= 0 && *m == n as u64,
            Json::Number(Number::Negative(m)) => *m == n,
            _ => false,
        }
    }

    /// Whether the value is `true`.
    pub fn is_true(&self) -> (r: bool)
        ensures
            r == (*self == Json::Bool(true)),
    {
        match self {
            Json::Bool(b) => *b,
            _ => false,
        }
    }
}

/// An object gives, for a name, the value of the first member of that name.
pub proof fn member_is_the_first_of_its_name(members: Seq<Member>, key: Seq<char>, i: int)
    requires
        0 <= i < members.len(),
        members[i].key@ == key,
        forall|j: int| 0 <= j < i ==> (#[trigger] members[j]).key@ != key,
    ensures
        member(members, key) == Some(members[i].value),
    decreases i,
{
    if i > 0 {
        assert(members[0].key@ != key);
        assert(members.drop_first()[i - 1] == members[i]);
        assert forall|j: int| 0 <= j < i - 1 implies (
        #[trigger] members.drop_first()[j]).key@ != key by {
            assert(members.drop_first()[j] == members[j + 1]);
        }
        member_is_the_first_of_its_name(members.drop_first(), key, i - 1);
    }
}

/// An object gives nothing for a name that no member has.
pub proof fn absent_member_is_not_found(members: Seq<Member>, key: Seq<char>)
    requires
        forall|j: int| 0 <= j < members.len() ==> (#[trigger] members[j]).key@ != key,
    ensures
        member(members, key) is None,
    decreases members.len(),
{
    if members.len() > 0 {
        assert(members[0].key@ != key);
        assert forall|j: int| 0 <= j < members.len() - 1 implies (
        #[trigger] members.drop_first()[j]).key@ != key by {
            assert(members.drop_first()[j] == members[j + 1]);
        }
        absent_member_is_not_found(members.drop_first(), key);
    }
}

/// A value is a whole number of 64 bits with a sign exactly when it was written as one.
pub proof fn whole_numbers(value: Json, n: int)
    ensures
        value.spec_as_i64() == Some(n) <==> {
            ||| 0 <= n <= i64::MAX && value == Json::Number(Number::Unsigned(n as u64))
            ||| i64::MIN <= n <= i64::MAX && value == Json::Number(Number::Negative(n as i64))
        },
{
}

} // verus!
