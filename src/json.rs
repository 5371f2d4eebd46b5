use vstd::prelude::*;

verus! {

/// A structured document, as it stands after the text has been parsed.
/// Numbers are kept as their literal text: nothing here reads them.
#[derive(Debug, PartialEq)]
pub enum Json {
    Null,
    Bool(bool),
    Number(String),
    Str(String),
    Array(Vec<Json>),
    Object(Vec<(String, Json)>),
}

/// The value of the first entry of `obj` whose key is `key`.
pub open spec fn lookup(obj: Seq<(String, Json)>, key: Seq<char>) -> Option<Json>
    decreases obj.len(),
{
    if obj.len() == 0 {
        None
    } else if obj[0].0@ == key {
        Some(obj[0].1)
    } else {
        lookup(obj.drop_first(), key)
    }
}

/// `lookup` finds the entry at `i` when no earlier entry has its key.
pub proof fn lemma_lookup_at(obj: Seq<(String, Json)>, i: int)
    requires
        0 <= i < obj.len(),
        forall|j: int| 0 <= j < i ==> obj[j].0@ != obj[i].0@,
    ensures
        lookup(obj, obj[i].0@) == Some(obj[i].1),
    decreases i,
{
    if i > 0 {
        let rest = obj.drop_first();
        assert forall|j: int| 0 <= j < i - 1 implies #[trigger] rest[j].0@ != rest[i - 1].0@ by {
            assert(rest[j] == obj[j + 1]);
        }
        lemma_lookup_at(rest, i - 1);
        assert(rest[i - 1] == obj[i]);
    }
}

/// `lookup` finds nothing when no entry has the key.
pub proof fn lemma_lookup_absent(obj: Seq<(String, Json)>, key: Seq<char>)
    requires
        forall|j: int| 0 <= j < obj.len() ==> obj[j].0@ != key,
    ensures
        lookup(obj, key) is None,
    decreases obj.len(),
{
    if obj.len() > 0 {
        let rest = obj.drop_first();
        assert forall|j: int| 0 <= j < rest.len() implies rest[j].0@ != key by {
            assert(rest[j] == obj[j + 1]);
        }
        lemma_lookup_absent(rest, key);
    }
}

/// Whether two texts hold the same characters.
pub fn same_text(a: &str, b: &str) -> (r: bool)
    ensures
        r == (a@ == b@),
{
    let n = a.unicode_len();
    if n != b.unicode_len() {
        return false;
    }
    let mut i: usize = 0;
    while i < n
        invariant
            n == a@.len(),
            n == b@.len(),
            i <= n,
            a@.subrange(0, i as int) == b@.subrange(0, i as int),
        decreases n - i,
    {
        if a.get_char(i) != b.get_char(i) {
            assert(a@[i as int] != b@[i as int]);
            return false;
        }
        assert(a@.subrange(0, i + 1) =~= a@.subrange(0, i as int).push(a@[i as int]));
        assert(b@.subrange(0, i + 1) =~= b@.subrange(0, i as int).push(b@[i as int]));
        i = i + 1;
    }
    assert(a@ =~= a@.subrange(0, n as int));
    assert(b@ =~= b@.subrange(0, n as int));
    true
}

/// `text` begins with the characters of `prefix`.
pub open spec fn is_text_prefix(prefix: Seq<char>, text: Seq<char>) -> bool {
    prefix.len() <= text.len() && text.subrange(0, prefix.len() as int) == prefix
}

/// Whether `prefix` is a prefix of `text`.
pub fn starts_with_text(text: &str, prefix: &str) -> (r: bool)
    ensures
        r == is_text_prefix(prefix@, text@),
{
    let n = prefix.unicode_len();
    if n > text.unicode_len() {
        return false;
    }
    let mut i: usize = 0;
    while i < n
        invariant
            n == prefix@.len(),
            n <= text@.len(),
            i <= n,
            forall|j: int| 0 <= j < i ==> prefix@[j] == text@[j],
        decreases n - i,
    {
        if prefix.get_char(i) != text.get_char(i) {
            assert(text@.subrange(0, n as int)[i as int] != prefix@[i as int]);
            return false;
        }
        i = i + 1;
    }
    assert(text@.subrange(0, n as int) =~= prefix@);
    true
}

/// The value under `key` in the entries of an object, as `lookup` gives it.
pub fn get_field<'a>(obj: &'a Vec<(String, Json)>, key: &str) -> (r: Option<&'a Json>)
    ensures
        match r {
            Some(v) => lookup(obj@, key@) == Some(*v),
            None => lookup(obj@, key@) is None,
        },
{
    let mut i: usize = 0;
    assert(obj@ =~= obj@.subrange(0, obj@.len() as int));
    while i < obj.len()
        invariant
            i <= obj@.len(),
            lookup(obj@, key@) == lookup(obj@.subrange(i as int, obj@.len() as int), key@),
        decreases obj.len() - i,
    {
        let ghost rest = obj@.subrange(i as int, obj@.len() as int);
        assert(rest.drop_first() =~= obj@.subrange(i + 1, obj@.len() as int));
        assert(rest[0] == obj@[i as int]);
        if same_text(obj[i].0.as_str(), key) {
            return Some(&obj[i].1);
        }
        i = i + 1;
    }
    assert(obj@.subrange(i as int, obj@.len() as int).len() == 0);
    None
}

} // verus!
