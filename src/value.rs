use vstd::prelude::*;

verus! {

/// A value handed back by the configuration script's evaluator.
pub enum Value {
    Nil,
    Int(i64),
    /// A real number, in thousandths.
    Milli(i64),
    Str(String),
    Symbol(String),
    /// A reference to a script callable, as a handle that the host resolves.
    Callable(u64),
    List(Vec<Value>),
    /// An association record: ordered key/value pairs, duplicates allowed.
    Record(Vec<Entry>),
}

pub struct Entry {
    pub key: String,
    pub value: Value,
}

/// The first value stored under `key`, scanning from the front.
pub open spec fn lookup(entries: Seq<Entry>, key: Seq<char>) -> Option<Value>
    decreases entries.len(),
{
    if entries.len() == 0 {
        None
    } else {
        let earlier = lookup(entries.drop_last(), key);
        if earlier is Some {
            earlier
        } else if entries.last().key@ == key {
            Some(entries.last().value)
        } else {
            None
        }
    }
}

/// The field `key` of a value, when the value is a record holding it.
pub open spec fn field(v: Value, key: Seq<char>) -> Option<Value> {
    match v {
        Value::Record(entries) => lookup(entries@, key),
        _ => None,
    }
}

/// The integer a value holds, when it is an integer.
pub open spec fn int_of(v: Option<Value>) -> Option<i64> {
    match v {
        Some(Value::Int(n)) => Some(n),
        _ => None,
    }
}

pub open spec fn clamp_i64(x: int) -> i64 {
    if x < i64::MIN {
        i64::MIN
    } else if x > i64::MAX {
        i64::MAX
    } else {
        x as i64
    }
}

/// A numeric value in thousandths; absent or non-numeric reads as zero.
pub open spec fn milli_of(v: Option<Value>) -> i64 {
    match v {
        Some(Value::Int(n)) => clamp_i64(n * 1000),
        Some(Value::Milli(m)) => m,
        _ => 0,
    }
}

/// The name of a symbol; a string or any other value gives none.
pub open spec fn symbol_of(v: Option<Value>) -> Option<Seq<char>> {
    match v {
        Some(Value::Symbol(s)) => Some(s@),
        _ => None,
    }
}

/// The text of a string; a symbol or any other value gives none.
pub open spec fn text_of(v: Option<Value>) -> Option<Seq<char>> {
    match v {
        Some(Value::Str(s)) => Some(s@),
        _ => None,
    }
}

pub fn str_eq(a: &str, b: &str) -> (r: bool)
    ensures
        r == (a@ == b@),
{
    let n = a.unicode_len();
    if n != b.unicode_len() {
        return false;
    }
    let mut i: usize = 0;
    while i < n
        invariant
            n == a@.len(),
            n == b@.len(),
            i <= n,
            forall|j: int| 0 <= j < i ==> a@[j] == b@[j],
        decreases n - i,
    {
        if a.get_char(i) != b.get_char(i) {
            return false;
        }
        i = i + 1;
    }
    assert(a@ =~= b@);
    true
}

/// Position of the first entry whose key is `key`.
pub fn find_key(entries: &Vec<Entry>, key: &str) -> (r: Option<usize>)
    ensures
        match r {
            Some(i) => i < entries@.len() && lookup(entries@, key@) == Some(entries@[i as int].value),
            None => lookup(entries@, key@) is None,
        },
{
    let mut i: usize = 0;
    while i < entries.len()
        invariant
            i <= entries@.len(),
            lookup(entries@.take(i as int), key@) is None,
        decreases entries@.len() - i,
    {
        proof {
            assert(entries@.take(i as int + 1).drop_last() =~= entries@.take(i as int));
        }
        if str_eq(entries[i].key.as_str(), key) {
            proof { lemma_lookup_prefix(entries@, key@, i as int + 1); }
            return Some(i);
        }
        i = i + 1;
    }
    assert(entries@.take(entries@.len() as int) =~= entries@);
    None
}

/// A hit in a prefix is the hit in the whole record.
pub proof fn lemma_lookup_prefix(entries: Seq<Entry>, key: Seq<char>, n: int)
    requires
        0 <= n <= entries.len(),
        lookup(entries.take(n), key) is Some,
    ensures
        lookup(entries, key) == lookup(entries.take(n), key),
    decreases entries.len() - n,
{
    if n < entries.len() {
        assert(entries.take(n + 1).drop_last() =~= entries.take(n));
        lemma_lookup_prefix(entries, key, n + 1);
    } else {
        assert(entries.take(n) =~= entries);
    }
}

impl Value {
    /// The field `key` of this value, when it is a record holding it.
    pub fn get_field(&self, key: &str) -> (r: Option<&Value>)
        ensures
            match r {
                Some(v) => field(*self, key@) == Some(*v),
                None => field(*self, key@) is None,
            },
    {
        match self {
            Value::Record(entries) => match find_key(entries, key) {
                Some(i) => Some(&entries[i].value),
                None => None,
            },
            _ => None,
        }
    }

    /// The integer field `key`, when present and an integer.
    pub fn int_field(&self, key: &str) -> (r: Option<i64>)
        ensures
            r == int_of(field(*self, key@)),
    {
        opt_int(self.get_field(key))
    }

    /// The numeric field `key` in thousandths, zero when absent.
    pub fn milli_field(&self, key: &str) -> (r: i64)
        ensures
            r == milli_of(field(*self, key@)),
    {
        opt_milli(self.get_field(key))
    }

    /// This value as a number in thousandths; zero when it is not a number.
    pub fn milli_of_value(&self) -> (r: i64)
        ensures
            r == milli_of(Some(*self)),
    {
        opt_milli(Some(self))
    }

    /// The symbol field `key`: its name, when present and a symbol.
    pub fn symbol_field(&self, key: &str) -> (r: Option<&str>)
        ensures
            match r {
                Some(s) => symbol_of(field(*self, key@)) == Some(s@),
                None => symbol_of(field(*self, key@)) is None,
            },
    {
        match self.get_field(key) {
            Some(Value::Symbol(s)) => Some(s.as_str()),
            _ => None,
        }
    }

    /// The string field `key`: its text, when present and a string.
    pub fn text_field(&self, key: &str) -> (r: Option<&str>)
        ensures
            match r {
                Some(s) => text_of(field(*self, key@)) == Some(s@),
                None => text_of(field(*self, key@)) is None,
            },
    {
        match self.get_field(key) {
            Some(Value::Str(s)) => Some(s.as_str()),
            _ => None,
        }
    }
}

fn opt_int(v: Option<&Value>) -> (r: Option<i64>)
    ensures
        r == int_of(match v { Some(x) => Some(*x), None => None }),
{
    match v {
        Some(Value::Int(n)) => Some(*n),
        _ => None,
    }
}

fn opt_milli(v: Option<&Value>) -> (r: i64)
    ensures
        r == milli_of(match v { Some(x) => Some(*x), None => None }),
{
    match v {
        Some(Value::Int(n)) => {
            let wide: i128 = (*n as i128) * 1000;
            if wide < i64::MIN as i128 {
                i64::MIN
            } else if wide > i64::MAX as i128 {
                i64::MAX
            } else {
                wide as i64
            }
        },
        Some(Value::Milli(m)) => *m,
        _ => 0,
    }
}


} // verus!
