use vstd::prelude::*;
use vstd::string::*;

verus! {

/// The JSON string literal (quoted and escaped) that stands for `s`.
pub uninterp spec fn json_string_of(s: Seq<char>) -> Seq<char>;

/// JSON string literal for `s`.
///
/// Relies on `serde_json::to_string` applied to a `str`: it writes the escaped,
/// quoted literal into a `Vec<u8>`, a write that does not fail, so the error arm
/// is never taken.
#[verifier::external_body]
pub(crate) fn json_string(s: &str) -> (r: String)
    ensures
        r@ == json_string_of(s@),
{
    match serde_json::to_string(s) {
        Ok(t) => t,
        Err(_) => String::new(),
    }
}

/// Texts joined by commas.
pub open spec fn join_commas(items: Seq<Seq<char>>) -> Seq<char>
    decreases items.len(),
{
    if items.len() == 0 {
        Seq::empty()
    } else if items.len() == 1 {
        items[0]
    } else {
        join_commas(items.drop_last()) + ","@ + items.last()
    }
}

/// The text of one object member: `"key":value`, where `value` is JSON text.
pub open spec fn json_member(m: (Seq<char>, Seq<char>)) -> Seq<char> {
    json_string_of(m.0) + ":"@ + m.1
}

pub open spec fn member_texts(ms: Seq<(Seq<char>, Seq<char>)>) -> Seq<Seq<char>> {
    Seq::new(ms.len(), |i: int| json_member(ms[i]))
}

/// A JSON object with the given members, in the given order, without whitespace.
pub open spec fn json_object(ms: Seq<(Seq<char>, Seq<char>)>) -> Seq<char> {
    "{"@ + join_commas(member_texts(ms)) + "}"@
}

/// A JSON array of the given element texts, without whitespace.
pub open spec fn json_array(items: Seq<Seq<char>>) -> Seq<char> {
    "["@ + join_commas(items) + "]"@
}

/// The JSON text of an optional string: its literal, or `null`.
pub open spec fn json_opt_string(s: Option<Seq<char>>) -> Seq<char> {
    match s {
        Some(t) => json_string_of(t),
        None => "null"@,
    }
}

/// The JSON text of an optional boolean.
pub open spec fn json_opt_bool(b: Option<bool>) -> Seq<char> {
    match b {
        Some(true) => "true"@,
        Some(false) => "false"@,
        None => "null"@,
    }
}

proof fn lemma_join_push(items: Seq<Seq<char>>, x: Seq<char>)
    ensures
        join_commas(items.push(x)) == if items.len() == 0 {
            x
        } else {
            join_commas(items) + ","@ + x
        },
{
    assert(items.push(x).drop_last() =~= items);
}

proof fn lemma_member_texts_push(ms: Seq<(Seq<char>, Seq<char>)>, m: (Seq<char>, Seq<char>))
    ensures
        member_texts(ms.push(m)) == member_texts(ms).push(json_member(m)),
{
    assert(member_texts(ms.push(m)) =~= member_texts(ms).push(json_member(m)));
}

/// Writes a JSON object member by member.
pub struct ObjectWriter {
    buf: String,
    nonempty: bool,
    members: Ghost<Seq<(Seq<char>, Seq<char>)>>,
}

impl ObjectWriter {
    /// The members written so far: keys, and the JSON text of each value.
    pub closed spec fn members(&self) -> Seq<(Seq<char>, Seq<char>)> {
        self.members@
    }

    pub closed spec fn wf(&self) -> bool {
        &&& self.buf@ == "{"@ + join_commas(member_texts(self.members@))
        &&& self.nonempty == (self.members@.len() > 0)
    }

    pub fn new() -> (w: ObjectWriter)
        ensures
            w.wf(),
            w.members() == Seq::<(Seq<char>, Seq<char>)>::empty(),
    {
        let w = ObjectWriter { buf: String::from_str("{"), nonempty: false, members: Ghost(Seq::empty()) };
        assert(member_texts(Seq::<(Seq<char>, Seq<char>)>::empty()) =~= Seq::<Seq<char>>::empty());
        assert("{"@ + join_commas(Seq::<Seq<char>>::empty()) =~= "{"@);
        w
    }

    /// Adds the member `"key":value`; `value` is JSON text.
    pub fn member(&mut self, key: &str, value: &str)
        requires
            old(self).wf(),
        ensures
            final(self).wf(),
            final(self).members() == old(self).members().push((key@, value@)),
    {
        let ghost m = (key@, value@);
        proof {
            lemma_member_texts_push(self.members@, m);
            lemma_join_push(member_texts(self.members@), json_member(m));
        }
        if self.nonempty {
            self.buf.append(",");
        }
        let k = json_string(key);
        self.buf.append(k.as_str());
        self.buf.append(":");
        self.buf.append(value);
        self.nonempty = true;
        self.members = Ghost(self.members@.push(m));
        assert(self.buf@ =~= "{"@ + join_commas(member_texts(self.members@)));
    }

    pub fn finish(self) -> (r: String)
        requires
            self.wf(),
        ensures
            r@ == json_object(self.members()),
    {
        let mut buf = self.buf;
        buf.append("}");
        buf
    }
}

/// Writes a JSON array element by element.
pub struct ArrayWriter {
    buf: String,
    nonempty: bool,
    items: Ghost<Seq<Seq<char>>>,
}

impl ArrayWriter {
    /// The element texts written so far.
    pub closed spec fn items(&self) -> Seq<Seq<char>> {
        self.items@
    }

    pub closed spec fn wf(&self) -> bool {
        &&& self.buf@ == "["@ + join_commas(self.items@)
        &&& self.nonempty == (self.items@.len() > 0)
    }

    pub fn new() -> (w: ArrayWriter)
        ensures
            w.wf(),
            w.items() == Seq::<Seq<char>>::empty(),
    {
        let w = ArrayWriter { buf: String::from_str("["), nonempty: false, items: Ghost(Seq::empty()) };
        assert("["@ + join_commas(Seq::<Seq<char>>::empty()) =~= "["@);
        w
    }

    /// Adds an element; `item` is JSON text.
    pub fn element(&mut self, item: &str)
        requires
            old(self).wf(),
        ensures
            final(self).wf(),
            final(self).items() == old(self).items().push(item@),
    {
        proof {
            lemma_join_push(self.items@, item@);
        }
        if self.nonempty {
            self.buf.append(",");
        }
        self.buf.append(item);
        self.nonempty = true;
        self.items = Ghost(self.items@.push(item@));
        assert(self.buf@ =~= "["@ + join_commas(self.items@));
    }

    pub fn finish(self) -> (r: String)
        requires
            self.wf(),
        ensures
            r@ == json_array(self.items()),
    {
        let mut buf = self.buf;
        buf.append("]");
        buf
    }
}

} // verus!
