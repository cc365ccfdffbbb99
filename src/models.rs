//! The public response model: one entry per object key.
use vstd::prelude::*;
use vstd::string::*;
use hyper::header::HeaderValue;

verus! {

#[verifier::external_type_specification]
#[verifier::external_body]
pub struct ExHeaderValue(HeaderValue);

/// One element of the "list files" response.
#[derive(Debug, Clone, PartialEq)]
pub struct FilesGet200ResponseInner {
    pub file_name: Option<String>,
}

/// The file name of a record, as characters.
pub open spec fn name_view(name: Option<String>) -> Option<Seq<char>> {
    match name {
        Some(n) => Some(n@),
        None => None,
    }
}

/// The key under which the file name appears in the query form.
pub open spec fn file_name_key() -> Seq<char> {
    "fileName"@
}

/// The query form (style form, not exploded) of a record with this name.
pub open spec fn query_form(name: Option<Seq<char>>) -> Seq<char> {
    match name {
        Some(n) => file_name_key() + seq![','] + n,
        None => Seq::empty(),
    }
}

/// Splits text at every comma; text without a comma is one field.
pub open spec fn split_fields(s: Seq<char>) -> Seq<Seq<char>>
    decreases s.len(),
{
    if s.len() == 0 {
        seq![Seq::empty()]
    } else {
        let prev = split_fields(s.drop_last());
        if s.last() == ',' {
            prev.push(Seq::empty())
        } else {
            prev.update(prev.len() - 1, prev.last().push(s.last()))
        }
    }
}

/// The message for a key that has no value after it.
pub open spec fn missing_value_message() -> Seq<char> {
    "Missing value while parsing FilesGet200ResponseInner"@
}

/// The message for a key other than `fileName`.
pub open spec fn unexpected_key_message() -> Seq<char> {
    "Unexpected key while parsing FilesGet200ResponseInner"@
}

/// Some complete key/value pair of the fields has a key other than `fileName`.
pub open spec fn has_unexpected_key(f: Seq<Seq<char>>) -> bool {
    exists|k: int| 0 <= k && 2 * k + 1 < f.len() && #[trigger] f[2 * k] != file_name_key()
}

/// What parsing the query form yields: the file name, or an error message.
/// Pairs are read in order, so a bad key in a complete pair is reported
/// before a trailing key without a value. The first value is kept.
pub open spec fn parse_query(s: Seq<char>) -> Result<Option<Seq<char>>, Seq<char>> {
    let f = split_fields(s);
    if has_unexpected_key(f) {
        Err(unexpected_key_message())
    } else if f.len() % 2 == 1 {
        Err(missing_value_message())
    } else if f.len() >= 2 {
        Ok(Some(f[1]))
    } else {
        Ok(None)
    }
}

proof fn lemma_split_fields_nonempty(s: Seq<char>)
    ensures
        split_fields(s).len() >= 1,
    decreases s.len(),
{
    if s.len() > 0 {
        lemma_split_fields_nonempty(s.drop_last());
    }
}

/// Appending comma-free text to some text only extends its last field.
proof fn lemma_split_fields_extend(s: Seq<char>, a: Seq<char>)
    requires
        forall|i: int| 0 <= i < a.len() ==> a[i] != ',',
    ensures
        split_fields(s + a) == split_fields(s).update(
            split_fields(s).len() - 1,
            split_fields(s).last() + a,
        ),
    decreases a.len(),
{
    lemma_split_fields_nonempty(s);
    if a.len() == 0 {
        assert(s + a =~= s);
        assert(split_fields(s).last() + a =~= split_fields(s).last());
        assert(split_fields(s).update(split_fields(s).len() - 1, split_fields(s).last())
            =~= split_fields(s));
    } else {
        let a0 = a.drop_last();
        lemma_split_fields_extend(s, a0);
        assert((s + a).drop_last() =~= s + a0);
        assert((s + a).last() == a.last());
        let f = split_fields(s);
        assert(f.last() + a0 + seq![a.last()] =~= f.last() + a);
        assert(f.update(f.len() - 1, f.last() + a0).update(f.len() - 1, f.last() + a0 + seq![
            a.last(),
        ]) =~= f.update(f.len() - 1, f.last() + a));
        assert((f.last() + a0).push(a.last()) =~= f.last() + a0 + seq![a.last()]);
    }
}

/// Reading back the query form of a named record gives the same name, as
/// long as the name holds no comma.
pub proof fn lemma_query_form_round_trip(n: Seq<char>)
    requires
        forall|i: int| 0 <= i < n.len() ==> n[i] != ',',
    ensures
        parse_query(query_form(Some(n))) == Ok::<Option<Seq<char>>, Seq<char>>(Some(n)),
{
    reveal_strlit("fileName");
    let key = file_name_key();
    assert(forall|i: int| 0 <= i < key.len() ==> key[i] != ',');
    lemma_split_fields_extend(Seq::empty(), key);
    assert(Seq::<char>::empty() + key =~= key);
    assert(split_fields(Seq::<char>::empty()) =~~= seq![Seq::<char>::empty()]);
    assert(Seq::<char>::empty() + key =~= key);
    assert(split_fields(key) =~~= seq![key]);
    let kc = key + seq![','];
    assert(kc.drop_last() =~= key);
    assert(split_fields(kc) =~~= seq![key, Seq::<char>::empty()]);
    lemma_split_fields_extend(kc, n);
    assert(query_form(Some(n)) =~= kc + n);
    let f = split_fields(query_form(Some(n)));
    assert(f =~~= seq![key, n]);
    assert(!has_unexpected_key(f)) by {
        assert forall|k: int| 0 <= k && 2 * k + 1 < f.len() implies #[trigger] f[2 * k]
            == file_name_key() by {
            assert(k == 0);
        }
    }
}

impl FilesGet200ResponseInner {
    /// A record with no file name.
    pub fn new() -> (r: FilesGet200ResponseInner)
        ensures
            r.file_name is None,
    {
        FilesGet200ResponseInner { file_name: None }
    }

    /// Renders the record in its query form: `fileName,<name>`, or nothing.
    pub fn to_string(&self) -> (r: String)
        ensures
            r@ == query_form(name_view(self.file_name)),
    {
        match &self.file_name {
            Some(n) => {
                let key = "fileName,";
                proof {
                    reveal_strlit("fileName,");
                    reveal_strlit("fileName");
                    assert(key@ =~= file_name_key() + seq![',']);
                }
                key.to_owned().concat(n.as_str())
            },
            None => String::new(),
        }
    }
    /// Parses the query form: comma-separated pairs of key and value, where
    /// the only key is `fileName`.
    pub fn from_str(s: &str) -> (r: Result<FilesGet200ResponseInner, String>)
        ensures
            match r {
                Ok(v) => parse_query(s@) == Ok::<Option<Seq<char>>, Seq<char>>(
                    name_view(v.file_name),
                ),
                Err(e) => parse_query(s@) == Err::<Option<Seq<char>>, Seq<char>>(e@),
            },
    {
        let fields = split_at_commas(s);
        let n = fields.len();
        proof {
            lemma_split_fields_nonempty(s@);
            reveal_strlit("fileName");
        }
        let key = "fileName".to_owned();
        let mut k: usize = 0;
        while k < n / 2
            invariant
                k <= n / 2,
                n == fields@.len(),
                fields@.map_values(|f: String| f@) == split_fields(s@),
                key@ == file_name_key(),
                forall|j: int| 0 <= j < k ==> #[trigger] fields@[2 * j]@ == file_name_key(),
            decreases n / 2 - k,
        {
            proof {
                assert(fields@.map_values(|f: String| f@)[2 * k as int] == fields@[2 * k as int]@);
            }
            if fields[2 * k] != key {
                proof {
                    let f = split_fields(s@);
                    assert(f[2 * k as int] != file_name_key());
                    assert(has_unexpected_key(f));
                    reveal_strlit("Unexpected key while parsing FilesGet200ResponseInner");
                }
                return Err("Unexpected key while parsing FilesGet200ResponseInner".to_owned());
            }
            k = k + 1;
        }
        proof {
            let f = split_fields(s@);
            assert forall|j: int| 0 <= j && 2 * j + 1 < f.len() implies #[trigger] f[2 * j]
                == file_name_key() by {
                assert(f[2 * j] == fields@[2 * j]@);
            }
            assert(!has_unexpected_key(f));
        }
        if n % 2 == 1 {
            proof {
                reveal_strlit("Missing value while parsing FilesGet200ResponseInner");
            }
            return Err("Missing value while parsing FilesGet200ResponseInner".to_owned());
        }
        proof {
            assert(fields@.map_values(|f: String| f@)[1] == fields@[1]@);
        }
        Ok(FilesGet200ResponseInner { file_name: Some(fields[1].clone()) })
    }
}

/// Splits text at every comma, keeping empty fields.
fn split_at_commas(s: &str) -> (r: Vec<String>)
    ensures
        r@.map_values(|f: String| f@) == split_fields(s@),
{
    let len = s.unicode_len();
    let mut fields: Vec<String> = Vec::new();
    let mut start: usize = 0;
    let mut i: usize = 0;
    proof {
        assert(s@.subrange(0, 0) =~= Seq::<char>::empty());
        assert(fields@.map_values(|f: String| f@).push(s@.subrange(0, 0)) =~~= split_fields(
            s@.subrange(0, 0),
        ));
    }
    while i < len
        invariant
            len == s@.len(),
            start <= i <= len,
            fields@.map_values(|f: String| f@).push(s@.subrange(start as int, i as int))
                == split_fields(s@.subrange(0, i as int)),
        decreases len - i,
    {
        let c = s.get_char(i);
        proof {
            let t = s@.subrange(0, i as int + 1);
            assert(t.drop_last() =~= s@.subrange(0, i as int));
            assert(t.last() == c);
        }
        let ghost before = fields@.map_values(|f: String| f@);
        if c == ',' {
            let field = s.substring_char(start, i).to_owned();
            fields.push(field);
            start = i + 1;
            proof {
                assert(s@.subrange(start as int, i as int + 1) =~= Seq::<char>::empty());
                assert(fields@.map_values(|f: String| f@) =~= before.push(field@));
            }
        } else {
            proof {
                let cur = s@.subrange(start as int, i as int);
                assert(s@.subrange(start as int, i as int + 1) =~= cur.push(c));
                assert(before.push(cur).update(before.len() as int, cur.push(c)) =~= before.push(
                    cur.push(c),
                ));
            }
        }
        i = i + 1;
    }
    let ghost before = fields@.map_values(|f: String| f@);
    let last = s.substring_char(start, len).to_owned();
    fields.push(last);
    proof {
        assert(s@.subrange(0, len as int) =~= s@);
        assert(fields@.map_values(|f: String| f@) =~= before.push(last@));
    }
    fields
}

/// A character that a header value may hold: its UTF-8 bytes are all at
/// least 32 and none is 127, or it is a tab.
pub open spec fn header_char_ok(c: char) -> bool {
    (c as u32 >= 32 && c as u32 != 127) || c == '\t'
}

/// A visible ASCII character, or a tab.
pub open spec fn visible_ascii(c: char) -> bool {
    (32 <= (c as u32) && (c as u32) < 127) || c == '\t'
}

/// Every character of the text may stand in a header value.
pub open spec fn header_text_ok(t: Seq<char>) -> bool {
    forall|i: int| 0 <= i < t.len() ==> #[trigger] header_char_ok(t[i])
}

/// The message when a record's query form cannot be a header value.
pub open spec fn invalid_header_message(text: Seq<char>, cause: Seq<char>) -> Seq<char> {
    "Invalid header value for FilesGet200ResponseInner - value: "@ + text + " is invalid "@ + cause
}

/// What reading a record from a header yields, given the header's text or,
/// where it had none, its debug form and the reason.
pub open spec fn header_text_result(text: Result<Seq<char>, (Seq<char>, Seq<char>)>) -> Result<
    Option<Seq<char>>,
    Seq<char>,
> {
    match text {
        Ok(t) => match parse_query(t) {
            Ok(n) => Ok(n),
            Err(e) => Err("Unable to convert header value '"@ + t
                + "' into FilesGet200ResponseInner - "@ + e),
        },
        Err((d, e)) => Err("Unable to convert header: "@ + d + " to string: "@ + e),
    }
}

/// A parsed record as its file name, or the error message.
pub open spec fn parsed_view(r: Result<FilesGet200ResponseInner, String>) -> Result<
    Option<Seq<char>>,
    Seq<char>,
> {
    match r {
        Ok(v) => Ok(name_view(v.file_name)),
        Err(e) => Err(e@),
    }
}

/// Relies on http's `HeaderValue::from_str`, re-exported by hyper: it accepts
/// text whose bytes are all at least 32 and not 127, or tabs, and its error
/// displays as "failed to parse header value".
#[verifier::external_body]
fn header_value_from_str(s: &str) -> (r: Result<HeaderValue, String>)
    ensures
        r is Ok <==> header_text_ok(s@),
        r is Err ==> r->Err_0@ == "failed to parse header value"@,
{
    HeaderValue::from_str(s).map_err(|e| e.to_string())
}

/// Relies on http's `HeaderValue::to_str`: it yields the text only when every
/// byte is visible ASCII or a tab, and its error displays as "failed to
/// convert header to a str".
#[verifier::external_body]
fn header_value_to_str(v: &HeaderValue) -> (r: Result<String, String>)
    ensures
        r is Ok ==> forall|i: int|
            0 <= i < r->Ok_0@.len() ==> #[trigger] visible_ascii(r->Ok_0@[i]),
        r is Err ==> r->Err_0@ == "failed to convert header to a str"@,
{
    v.to_str().map(|t| t.to_string()).map_err(|e| e.to_string())
}

/// Relies on the `Debug` impl of http's `HeaderValue`, for error messages.
#[verifier::external_body]
fn header_value_debug(v: &HeaderValue) -> (r: String) {
    format!("{:?}", v)
}

impl FilesGet200ResponseInner {
    /// Turns the record's query form into a header value.
    pub fn to_header_value(&self) -> (r: Result<HeaderValue, String>)
        ensures
            r is Ok <==> header_text_ok(query_form(name_view(self.file_name))),
            r is Err ==> r->Err_0@ == invalid_header_message(
                query_form(name_view(self.file_name)),
                "failed to parse header value"@,
            ),
    {
        let text = self.to_string();
        match header_value_from_str(text.as_str()) {
            Ok(v) => Ok(v),
            Err(e) => {
                let m = "Invalid header value for FilesGet200ResponseInner - value: ".to_owned();
                let m = m.concat(text.as_str());
                let m = m.concat(" is invalid ");
                Err(m.concat(e.as_str()))
            },
        }
    }

    /// Reads a record from a header's text, or reports why the header had
    /// none: `Err` holds the header's debug form and the reason.
    pub fn from_header_text(text: Result<String, (String, String)>) -> (r: Result<
        FilesGet200ResponseInner,
        String,
    >)
        ensures
            parsed_view(r) == header_text_result(
                match text {
                    Ok(t) => Ok(t@),
                    Err((d, e)) => Err((d@, e@)),
                },
            ),
    {
        match text {
            Ok(t) => match FilesGet200ResponseInner::from_str(t.as_str()) {
                Ok(v) => Ok(v),
                Err(e) => {
                    let m = "Unable to convert header value '".to_owned();
                    let m = m.concat(t.as_str());
                    let m = m.concat("' into FilesGet200ResponseInner - ");
                    Err(m.concat(e.as_str()))
                },
            },
            Err((d, e)) => {
                let m = "Unable to convert header: ".to_owned();
                let m = m.concat(d.as_str());
                let m = m.concat(" to string: ");
                Err(m.concat(e.as_str()))
            },
        }
    }

    /// Reads a record from a header value. What the header holds is known
    /// only through its text, so the result is that of some text made of
    /// visible ASCII, or the report that the header had no text.
    pub fn from_header_value(v: &HeaderValue) -> (r: Result<FilesGet200ResponseInner, String>)
        ensures
            (exists|t: Seq<char>|
                (forall|i: int| 0 <= i < t.len() ==> #[trigger] visible_ascii(t[i]))
                    && parsed_view(r) == header_text_result(Ok(t))) || (exists|d: Seq<char>|
                parsed_view(r) == #[trigger] header_text_result(
                    Err((d, "failed to convert header to a str"@)),
                )),
    {
        match header_value_to_str(v) {
            Ok(t) => {
                let r = FilesGet200ResponseInner::from_header_text(Ok(t));
                proof {
                    assert(parsed_view(r) == header_text_result(Ok(t@)));
                }
                r
            },
            Err(e) => {
                let d = header_value_debug(v);
                let r = FilesGet200ResponseInner::from_header_text(Err((d, e)));
                proof {
                    assert(parsed_view(r) == header_text_result(Err((d@, e@))));
                }
                r
            },
        }
    }
}

} // verus!
