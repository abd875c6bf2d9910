use vstd::prelude::*;

verus! {

#[verifier::external_type_specification]
#[verifier::external_body]
pub struct ExNumber(serde_json::Number);

#[verifier::external_type_specification]
#[verifier::external_body]
pub struct ExValue(serde_json::Value);

/// What serde_json reads from a text: the value, or its error message.
pub uninterp spec fn json_read(text: Seq<char>) -> Result<Json, Seq<char>>;

/// The compact text that serde_json writes for a value.
pub uninterp spec fn json_text(value: Json) -> Seq<char>;

/// The indented text that serde_json writes for a value.
pub uninterp spec fn json_pretty_text(value: Json) -> Seq<char>;

/// Relies on `serde_json::from_str::<Value>`: reads one JSON text, or gives
/// the parser's error message.
#[verifier::external_body]
pub(crate) fn read_json(text: &str) -> (r: Result<Json, String>)
    ensures
        match r {
            Ok(v) => json_read(text@) == Ok::<Json, Seq<char>>(v),
            Err(e) => json_read(text@) == Err::<Json, Seq<char>>(e@),
        },
{
    match serde_json::from_str::<serde_json::Value>(text) {
        Ok(v) => Ok(from_value(v)),
        Err(e) => Err(e.to_string()),
    }
}

/// Relies on `serde_json::to_string`, which cannot fail on a `Value`: its
/// keys are strings and the text is written to memory.
#[verifier::external_body]
pub(crate) fn write_json(value: &Json) -> (r: String)
    ensures
        r@ == json_text(*value),
{
    serde_json::to_string(&to_value(value)).unwrap_or_default()
}

/// Relies on `serde_json::to_string_pretty`, which cannot fail on a `Value`
/// for the same reasons.
#[verifier::external_body]
pub(crate) fn write_json_pretty(value: &Json) -> (r: String)
    ensures
        r@ == json_pretty_text(*value),
{
    serde_json::to_string_pretty(&to_value(value)).unwrap_or_default()
}

/// Converts serde_json's tree into the library's, variant for variant;
/// the text wrappers above use it and claim nothing of it by themselves.
#[verifier::external_body]
fn from_value(v: serde_json::Value) -> Json {
    match v {
        serde_json::Value::Null => Json::Null,
        serde_json::Value::Bool(b) => Json::Bool(b),
        serde_json::Value::Number(n) => match (n.as_u64(), n.as_i64()) {
            (Some(u), _) => Json::UInt(u),
            (None, Some(i)) => Json::Int(i),
            (None, None) => Json::Float(n),
        },
        serde_json::Value::String(s) => Json::Str(s),
        serde_json::Value::Array(a) => Json::Array(a.into_iter().map(from_value).collect()),
        serde_json::Value::Object(m) => Json::Object(m.into_iter().map(|(k, v)| (k, from_value(v))).collect()),
    }
}

/// Converts the library's tree into serde_json's, variant for variant;
/// the text wrappers above use it and claim nothing of it by themselves.
#[verifier::external_body]
fn to_value(j: &Json) -> serde_json::Value {
    match j {
        Json::Null => serde_json::Value::Null,
        Json::Bool(b) => serde_json::Value::Bool(*b),
        Json::UInt(n) => serde_json::Value::from(*n),
        Json::Int(i) => serde_json::Value::from(*i),
        Json::Float(n) => serde_json::Value::Number(n.clone()),
        Json::Str(s) => serde_json::Value::String(s.clone()),
        Json::Array(a) => serde_json::Value::Array(a.iter().map(to_value).collect()),
        Json::Object(m) => serde_json::Value::Object(m.iter().map(|(k, v)| (k.clone(), to_value(v))).collect()),
    }
}

/// One JSON value, as the protocol logic reads it.
///
/// Whole numbers are held exactly: `UInt` for those that are zero or more and
/// `Int` for negative ones. Every other number is carried through untouched.
/// An object keeps its members in the order given; where a key occurs twice
/// the later member is the one that counts. An object read from text has its
/// keys sorted and unique, as serde_json's map holds them.
#[derive(Debug)]
pub enum Json {
    Null,
    Bool(bool),
    UInt(u64),
    Int(i64),
    Float(serde_json::Number),
    Str(String),
    Array(Vec<Json>),
    Object(Vec<(String, Json)>),
}

/// The value of the last member named `key`, if any.
pub open spec fn lookup(members: Seq<(String, Json)>, key: Seq<char>) -> Option<Json>
    decreases members.len(),
{
    if members.len() == 0 {
        None
    } else if members.last().0@ == key {
        Some(members.last().1)
    } else {
        lookup(members.drop_last(), key)
    }
}

/// Removing a member under another key leaves a lookup as it was.
pub proof fn lemma_lookup_remove_other(members: Seq<(String, Json)>, i: int, key: Seq<char>)
    requires
        0 <= i < members.len(),
        members[i].0@ != key,
    ensures
        lookup(members.remove(i), key) == lookup(members, key),
    decreases members.len(),
{
    let rest = members.remove(i);
    if i == members.len() - 1 {
        assert(rest =~= members.drop_last());
    } else {
        assert(rest.last() == members.last());
        assert(rest.drop_last() =~= members.drop_last().remove(i));
        lemma_lookup_remove_other(members.drop_last(), i, key);
    }
}

impl Json {
    /// The member `key` of an object; nothing for any other value.
    pub open spec fn field(self, key: Seq<char>) -> Option<Json> {
        match self {
            Json::Object(members) => lookup(members@, key),
            _ => None,
        }
    }

    pub open spec fn has(self, key: Seq<char>) -> bool {
        self.field(key).is_some()
    }

    pub open spec fn str_view(self) -> Option<Seq<char>> {
        match self {
            Json::Str(s) => Some(s@),
            _ => None,
        }
    }

    /// The value as an unsigned 64-bit integer, where it is one.
    pub open spec fn u64_view(self) -> Option<u64> {
        match self {
            Json::UInt(n) => Some(n),
            Json::Int(i) => if i >= 0 {
                Some(i as u64)
            } else {
                None
            },
            _ => None,
        }
    }

    /// The value as a signed 64-bit integer, where it is one.
    pub open spec fn i64_view(self) -> Option<i64> {
        match self {
            Json::UInt(n) => if n <= i64::MAX {
                Some(n as i64)
            } else {
                None
            },
            Json::Int(i) => Some(i),
            _ => None,
        }
    }

    pub open spec fn str_field(self, key: Seq<char>) -> Option<Seq<char>> {
        match self.field(key) {
            Some(v) => v.str_view(),
            None => None,
        }
    }

    pub open spec fn u64_field(self, key: Seq<char>) -> Option<u64> {
        match self.field(key) {
            Some(v) => v.u64_view(),
            None => None,
        }
    }

    pub open spec fn i64_field(self, key: Seq<char>) -> Option<i64> {
        match self.field(key) {
            Some(v) => v.i64_view(),
            None => None,
        }
    }

    /// An object built from the given members, in order.
    pub fn object(members: Vec<(String, Json)>) -> (r: Json)
        ensures
            r == Json::Object(members),
    {
        Json::Object(members)
    }

    /// A string value.
    pub fn string(s: &str) -> (r: Json)
        ensures
            r.str_view() == Some(s@),
    {
        Json::Str(s.to_owned())
    }

    /// Whether the value is an object with a member `key`.
    pub fn has_field(&self, key: &str) -> (r: bool)
        ensures
            r == self.has(key@),
    {
        match self {
            Json::Object(members) => find_member(members, key).is_some(),
            _ => false,
        }
    }

    /// The member `key` when it is a string.
    pub fn get_str(&self, key: &str) -> (r: Option<String>)
        ensures
            opt_chars(r) == self.str_field(key@),
    {
        match self {
            Json::Object(members) => match find_member(members, key) {
                Some(i) => match &members[i].1 {
                    Json::Str(s) => Some(s.clone()),
                    _ => None,
                },
                None => None,
            },
            _ => None,
        }
    }

    /// The member `key` when it is an unsigned 64-bit integer.
    pub fn get_u64(&self, key: &str) -> (r: Option<u64>)
        ensures
            r == self.u64_field(key@),
    {
        match self {
            Json::Object(members) => match find_member(members, key) {
                Some(i) => match &members[i].1 {
                    Json::UInt(n) => Some(*n),
                    Json::Int(v) => if *v >= 0 {
                        Some(*v as u64)
                    } else {
                        None
                    },
                    _ => None,
                },
                None => None,
            },
            _ => None,
        }
    }

    /// The member `key` when it is a signed 64-bit integer.
    pub fn get_i64(&self, key: &str) -> (r: Option<i64>)
        ensures
            r == self.i64_field(key@),
    {
        match self {
            Json::Object(members) => match find_member(members, key) {
                Some(i) => match &members[i].1 {
                    Json::UInt(n) => if *n <= i64::MAX as u64 {
                        Some(*n as i64)
                    } else {
                        None
                    },
                    Json::Int(v) => Some(*v),
                    _ => None,
                },
                None => None,
            },
            _ => None,
        }
    }

    /// Moves the member `key` out of an object; every other key reads as
    /// before.
    pub fn take_field(&mut self, key: &str) -> (r: Option<Json>)
        ensures
            r == old(self).field(key@),
            forall|k: Seq<char>| k != key@ ==> #[trigger] final(self).field(k) == old(self).field(k),
    {
        match self {
            Json::Object(members) => match find_member(members, key) {
                Some(i) => {
                    let ghost before = members@;
                    let (_, v) = members.remove(i);
                    proof {
                        assert forall|k: Seq<char>| k != key@ implies lookup(members@, k) == lookup(
                            before,
                            k,
                        ) by {
                            lemma_lookup_remove_other(before, i as int, k);
                        }
                    }
                    Some(v)
                },
                None => None,
            },
            _ => None,
        }
    }
}

/// The view of an optional string.
pub open spec fn opt_chars(s: Option<String>) -> Option<Seq<char>> {
    match s {
        Some(t) => Some(t@),
        None => None,
    }
}

/// The place of the last member named `key`.
fn find_member(members: &Vec<(String, Json)>, key: &str) -> (r: Option<usize>)
    ensures
        match r {
            Some(i) => i < members@.len() && members@[i as int].0@ == key@ && lookup(members@, key@)
                == Some(members@[i as int].1),
            None => lookup(members@, key@).is_none(),
        },
{
    let wanted = key.to_owned();
    let mut n: usize = members.len();
    assert(members@.subrange(0, n as int) =~= members@);
    while n > 0
        invariant
            n <= members@.len(),
            wanted@ == key@,
            lookup(members@, key@) == lookup(members@.subrange(0, n as int), key@),
        decreases n,
    {
        let ghost prefix = members@.subrange(0, n as int);
        if members[n - 1].0 == wanted {
            return Some(n - 1);
        }
        assert(prefix.drop_last() =~= members@.subrange(0, n - 1));
        n = n - 1;
    }
    None
}

} // verus!
