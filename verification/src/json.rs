use vstd::prelude::*;

verus! {

/// A JSON document as the tools read and build it.
///
/// Numbers that fit an `i64` are held as integers; every other number is held
/// by its decimal text, as serde_json prints it.
#[derive(Debug)]
pub enum Json {
    Null,
    Bool(bool),
    Int(i64),
    Number(String),
    Str(String),
    Array(Vec<Json>),
    Object(Vec<(String, Json)>),
}

/// The mathematical model of a [`Json`] value.
pub enum JsonV {
    Null,
    Bool(bool),
    Int(int),
    Number(Seq<char>),
    Str(Seq<char>),
    Array(Seq<JsonV>),
    Object(Seq<(Seq<char>, JsonV)>),
}

/// The model of a JSON value.
pub open spec fn json_view(j: Json) -> JsonV
    decreases j,
{
    match j {
        Json::Null => JsonV::Null,
        Json::Bool(b) => JsonV::Bool(b),
        Json::Int(i) => JsonV::Int(i as int),
        Json::Number(s) => JsonV::Number(s@),
        Json::Str(s) => JsonV::Str(s@),
        Json::Array(items) => JsonV::Array(
            Seq::new(
                items@.len(),
                |i: int|
                    if 0 <= i < items@.len() {
                        json_view(items@[i])
                    } else {
                        JsonV::Null
                    },
            ),
        ),
        Json::Object(entries) => JsonV::Object(
            Seq::new(
                entries@.len(),
                |i: int|
                    if 0 <= i < entries@.len() {
                        (entries@[i].0@, json_view(entries@[i].1))
                    } else {
                        (Seq::empty(), JsonV::Null)
                    },
            ),
        ),
    }
}

impl View for Json {
    type V = JsonV;

    open spec fn view(&self) -> JsonV {
        json_view(*self)
    }
}

/// The value of the first entry named `key`, or `Null` where there is none.
pub open spec fn lookup(entries: Seq<(Seq<char>, JsonV)>, key: Seq<char>) -> JsonV
    decreases entries.len(),
{
    if entries.len() == 0 {
        JsonV::Null
    } else if entries[0].0 == key {
        entries[0].1
    } else {
        lookup(entries.drop_first(), key)
    }
}

impl JsonV {
    /// `value[key]`: the member named `key` of an object, `Null` otherwise.
    pub open spec fn index(self, key: Seq<char>) -> JsonV {
        match self {
            JsonV::Object(entries) => lookup(entries, key),
            _ => JsonV::Null,
        }
    }

    pub open spec fn as_str(self) -> Option<Seq<char>> {
        match self {
            JsonV::Str(s) => Some(s),
            _ => None,
        }
    }

    pub open spec fn as_i64(self) -> Option<int> {
        match self {
            JsonV::Int(i) => Some(i),
            _ => None,
        }
    }

    pub open spec fn as_array(self) -> Option<Seq<JsonV>> {
        match self {
            JsonV::Array(items) => Some(items),
            _ => None,
        }
    }

    /// The string held here, or `default` where there is none.
    pub open spec fn str_or(self, default: Seq<char>) -> Seq<char> {
        match self {
            JsonV::Str(s) => s,
            _ => default,
        }
    }

    /// The items of an array; an empty sequence for anything else.
    pub open spec fn items_or_empty(self) -> Seq<JsonV> {
        match self {
            JsonV::Array(items) => items,
            _ => Seq::empty(),
        }
    }
}

proof fn lemma_lookup_skip(entries: Seq<(Seq<char>, JsonV)>, key: Seq<char>, i: int)
    requires
        0 <= i <= entries.len(),
        forall|j: int| 0 <= j < i ==> #[trigger] entries[j].0 != key,
    ensures
        lookup(entries, key) == lookup(entries.subrange(i, entries.len() as int), key),
    decreases i,
{
    if i > 0 {
        assert(entries.drop_first().subrange(i - 1, entries.drop_first().len() as int)
            =~= entries.subrange(i, entries.len() as int));
        assert forall|j: int| 0 <= j < i - 1 implies #[trigger] entries.drop_first()[j].0 != key by {
            assert(entries.drop_first()[j] == entries[j + 1]);
        }
        lemma_lookup_skip(entries.drop_first(), key, i - 1);
    } else {
        assert(entries.subrange(0, entries.len() as int) =~= entries);
    }
}

impl Json {
    /// A copy of this value.
    pub fn deep_clone(&self) -> (r: Json)
        ensures
            r@ == self@,
        decreases self,
    {
        match self {
            Json::Null => Json::Null,
            Json::Bool(b) => Json::Bool(*b),
            Json::Int(i) => Json::Int(*i),
            Json::Number(s) => Json::Number(s.clone()),
            Json::Str(s) => Json::Str(s.clone()),
            Json::Array(items) => {
                let mut out: Vec<Json> = Vec::new();
                let mut i: usize = 0;
                while i < items.len()
                    invariant
                        i <= items@.len(),
                        out@.len() == i,
                        *self == Json::Array(*items),
                        forall|j: int| 0 <= j < i ==> #[trigger] out@[j]@ == items@[j]@,
                    decreases items@.len() - i,
                {
                    proof {
                        assert(decreases_to!(*self => self->Array_0));
                        assert(decreases_to!(*items => items@));
                        assert(decreases_to!(items@ => items@[i as int]));
                        assert(decreases_to!(*self => items@[i as int]));
                    }
                    let c = items[i].deep_clone();
                    out.push(c);
                    i = i + 1;
                }
                let r = Json::Array(out);
                assert(r@ == self@) by {
                    assert forall|j: int| 0 <= j < out@.len() implies json_view(out@[j]) == json_view(items@[j]) by {
                        assert(out@[j]@ == items@[j]@);
                    }
                    assert(r@->Array_0 =~= self@->Array_0);
                }
                r
            },
            Json::Object(entries) => {
                let mut out: Vec<(String, Json)> = Vec::new();
                let mut i: usize = 0;
                while i < entries.len()
                    invariant
                        i <= entries@.len(),
                        out@.len() == i,
                        *self == Json::Object(*entries),
                        forall|j: int| 0 <= j < i ==> #[trigger] out@[j].0@ == entries@[j].0@,
                        forall|j: int| 0 <= j < i ==> #[trigger] out@[j].1@ == entries@[j].1@,
                    decreases entries@.len() - i,
                {
                    proof {
                        assert(decreases_to!(*self => self->Object_0));
                        assert(decreases_to!(*entries => entries@));
                        assert(decreases_to!(entries@ => entries@[i as int]));
                        assert(decreases_to!(entries@[i as int] => entries@[i as int].1));
                        assert(decreases_to!(*self => entries@[i as int].1));
                    }
                    let v = entries[i].1.deep_clone();
                    let k = entries[i].0.clone();
                    out.push((k, v));
                    i = i + 1;
                }
                let r = Json::Object(out);
                assert(r@ == self@) by {
                    assert forall|j: int| 0 <= j < out@.len() implies json_view(out@[j].1) == json_view(entries@[j].1) by {
                        assert(out@[j].1@ == entries@[j].1@);
                    }
                    assert(r@->Object_0 =~= self@->Object_0);
                }
                r
            },
        }
    }

    /// `self[key]`: the member named `key`, where `self` is an object that has one.
    pub fn get(&self, key: &str) -> (r: Option<&Json>)
        ensures
            match r {
                Some(v) => v@ == self@.index(key@),
                None => self@.index(key@) == JsonV::Null,
            },
    {
        match self {
            Json::Object(entries) => {
                let ghost model = self@;
                let ghost ents = model->Object_0;
                assert(model == JsonV::Object(ents));
                let k = key.to_owned();
                let mut i: usize = 0;
                while i < entries.len()
                    invariant
                        i <= entries@.len(),
                        ents.len() == entries@.len(),
                        model == self@,
                        model == JsonV::Object(ents),
                        *self == Json::Object(*entries),
                        ents == Seq::new(
                            entries@.len(),
                            |n: int|
                                if 0 <= n < entries@.len() {
                                    (entries@[n].0@, json_view(entries@[n].1))
                                } else {
                                    (Seq::<char>::empty(), JsonV::Null)
                                },
                        ),
                        k@ == key@,
                        forall|j: int| 0 <= j < i ==> #[trigger] ents[j].0 != key@,
                    decreases entries@.len() - i,
                {
                    if entries[i].0 == k {
                        proof {
                            lemma_lookup_skip(ents, key@, i as int);
                            let rest = ents.subrange(i as int, ents.len() as int);
                            assert(rest[0] == ents[i as int]);
                            assert(ents[i as int] == (entries@[i as int].0@, json_view(entries@[i as int].1)));
                            assert(lookup(rest, key@) == rest[0].1);
                            assert(lookup(ents, key@) == json_view(entries@[i as int].1));
                            assert(self@ == JsonV::Object(ents));
                            assert(self@.index(key@) == json_view(entries@[i as int].1));
                        }
                        return Some(&entries[i].1);
                    }
                    i = i + 1;
                }
                proof {
                    lemma_lookup_skip(ents, key@, i as int);
                    assert(ents.subrange(i as int, ents.len() as int).len() == 0);
                }
                None
            },
            _ => None,
        }
    }

    pub fn as_str(&self) -> (r: Option<&String>)
        ensures
            match r {
                Some(s) => self@.as_str() == Some(s@),
                None => self@.as_str() is None,
            },
    {
        match self {
            Json::Str(s) => Some(s),
            _ => None,
        }
    }

    pub fn as_i64(&self) -> (r: Option<i64>)
        ensures
            match r {
                Some(i) => self@.as_i64() == Some(i as int),
                None => self@.as_i64() is None,
            },
    {
        match self {
            Json::Int(i) => Some(*i),
            _ => None,
        }
    }

    pub fn as_array(&self) -> (r: Option<&Vec<Json>>)
        ensures
            match r {
                Some(items) => self@.as_array() == Some(items_view(items@)),
                None => self@.as_array() is None,
            },
    {
        match self {
            Json::Array(items) => {
                assert(self@.as_array()->0 =~= items_view(items@));
                Some(items)
            },
            _ => None,
        }
    }
}


/// The model of the entries of an object under construction.
pub open spec fn entries_view(entries: Seq<(String, Json)>) -> Seq<(Seq<char>, JsonV)> {
    Seq::new(entries.len(), |i: int| (entries[i].0@, entries[i].1@))
}

/// The model of the items of an array under construction.
pub open spec fn items_view(items: Seq<Json>) -> Seq<JsonV> {
    Seq::new(items.len(), |i: int| items[i]@)
}

/// Adds the member `key: value` at the end of an object's entries.
pub fn push_entry(entries: &mut Vec<(String, Json)>, key: &str, value: Json)
    ensures
        entries_view(final(entries)@) == entries_view(old(entries)@).push((key@, value@)),
{
    entries.push((key.to_owned(), value));
    assert(entries_view(entries@) =~= entries_view(old(entries)@).push((key@, value@)));
}

/// Adds `item` at the end of an array's items.
pub fn push_item(items: &mut Vec<Json>, item: Json)
    ensures
        items_view(final(items)@) == items_view(old(items)@).push(item@),
{
    items.push(item);
    assert(items_view(items@) =~= items_view(old(items)@).push(item@));
}

impl Json {
    /// The object with the given entries.
    pub fn object(entries: Vec<(String, Json)>) -> (r: Json)
        ensures
            r@ == JsonV::Object(entries_view(entries@)),
    {
        let r = Json::Object(entries);
        assert(r@->Object_0 =~= entries_view(entries@));
        r
    }

    /// The array with the given items.
    pub fn array(items: Vec<Json>) -> (r: Json)
        ensures
            r@ == JsonV::Array(items_view(items@)),
    {
        let r = Json::Array(items);
        assert(r@->Array_0 =~= items_view(items@));
        r
    }

    /// The JSON string `s`.
    pub fn string(s: &str) -> (r: Json)
        ensures
            r@ == JsonV::Str(s@),
    {
        Json::Str(s.to_owned())
    }
}

/// The lower-case hexadecimal digit of `d` (0 to 15).
pub open spec fn lower_hex_digit(d: int) -> char {
    if d < 10 {
        ((48 + d) as u32) as char
    } else {
        ((87 + d) as u32) as char
    }
}

/// How serde_json writes one character inside a JSON string: `"` and `\` and
/// the control characters below U+0020 are escaped (the short forms `\b`,
/// `\t`, `\n`, `\f`, `\r` where they exist, `\u00XX` with lower-case digits
/// otherwise); every other character is written as it is.
pub open spec fn escape_char(c: char) -> Seq<char> {
    if c == '"' {
        seq!['\\', '"']
    } else if c == '\\' {
        seq!['\\', '\\']
    } else if (c as u32) == 8 {
        seq!['\\', 'b']
    } else if (c as u32) == 9 {
        seq!['\\', 't']
    } else if (c as u32) == 10 {
        seq!['\\', 'n']
    } else if (c as u32) == 12 {
        seq!['\\', 'f']
    } else if (c as u32) == 13 {
        seq!['\\', 'r']
    } else if (c as u32) < 32 {
        seq![
            '\\',
            'u',
            '0',
            '0',
            lower_hex_digit((c as u32) as int / 16),
            lower_hex_digit((c as u32) as int % 16),
        ]
    } else {
        seq![c]
    }
}

/// The escaped contents of a JSON string holding `s`.
pub open spec fn escape_text(s: Seq<char>) -> Seq<char>
    decreases s.len(),
{
    if s.len() == 0 {
        Seq::empty()
    } else {
        escape_char(s[0]) + escape_text(s.drop_first())
    }
}

/// `s` written as a JSON string: in double quotes, escaped.
pub open spec fn json_quoted(s: Seq<char>) -> Seq<char> {
    seq!['"'] + escape_text(s) + seq!['"']
}

/// Calls `serde_json::to_string` on a string slice. Per serde_json's
/// `format_escaped_str`, the result is the text in double quotes with `"`,
/// `\` and the control characters below U+0020 escaped (short forms where
/// they exist, `\u00XX` with lower-case digits otherwise); serialising into a
/// `Vec` never fails, so the error arm is not taken.
#[verifier::external_body]
pub(crate) fn json_quote(s: &str) -> (r: String)
    ensures
        r@ == json_quoted(s@),
{
    match serde_json::to_string(s) {
        Ok(quoted) => quoted,
        Err(_) => String::new(),
    }
}

} // verus!
