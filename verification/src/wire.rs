//! The wire: requests as NUL-terminated JSON, and what a reply complains about.
use crate::known::named;
use crate::text::{contents, dec, join, joined, same};
use vstd::prelude::*;
use vstd::string::*;
use vstd::utf8::*;

verus! {

/// A JSON value. What it holds is its text, see [`value_text`].
#[verifier::external_type_specification]
#[verifier::external_body]
pub struct ExValue(serde_json::Value);

/// Why something could not be written as JSON.
#[verifier::external_type_specification]
#[verifier::external_body]
pub struct ExJsonError(serde_json::Error);

/// The characters with which `serde_json` writes a value, without any space between
/// them.
pub uninterp spec fn value_text(v: serde_json::Value) -> Seq<char>;

/// A hexadecimal digit, in lower case.
pub open spec fn hex_digit(d: int) -> char {
    if d < 10 {
        (48 + d) as char
    } else {
        (87 + d) as char
    }
}

/// A character inside a JSON string: quotes, backslashes and control characters
/// are escaped.
pub open spec fn json_char(c: char) -> Seq<char> {
    if c == '"' {
        seq!['\\', '"']
    } else if c == '\\' {
        seq!['\\', '\\']
    } else if c as int == 8 {
        seq!['\\', 'b']
    } else if c as int == 9 {
        seq!['\\', 't']
    } else if c as int == 10 {
        seq!['\\', 'n']
    } else if c as int == 12 {
        seq!['\\', 'f']
    } else if c as int == 13 {
        seq!['\\', 'r']
    } else if (c as int) < 32 {
        seq!['\\', 'u', '0', '0', hex_digit(c as int / 16), hex_digit(c as int % 16)]
    } else {
        seq![c]
    }
}

/// Text as a JSON string.
pub open spec fn json_string(s: Seq<char>) -> Seq<char> {
    seq!['"'] + s.map_values(|c: char| json_char(c)).flatten() + seq!['"']
}

/// A truth value in JSON.
pub open spec fn json_bool(b: bool) -> Seq<char> {
    if b {
        "true"@
    } else {
        "false"@
    }
}

/// A JSON array of these items.
pub open spec fn json_array(items: Seq<Seq<char>>) -> Seq<char> {
    seq!['['] + joined(items, seq![',']) + seq![']']
}

/// The parameters of a request about buttons: a name and a state each.
pub open spec fn json_buttons(params: Seq<(Seq<char>, bool)>) -> Seq<char> {
    json_array(
        params.map_values(
            |p: (Seq<char>, bool)| json_array(seq![json_string(p.0), json_bool(p.1)]),
        ),
    )
}

/// The parameters of a request about levels: a name and the text of a value each.
pub open spec fn json_levels(params: Seq<(Seq<char>, Seq<char>)>) -> Seq<char> {
    json_array(
        params.map_values(|p: (Seq<char>, Seq<char>)| json_array(seq![json_string(p.0), p.1])),
    )
}

/// Levels with the characters of their names and values.
pub open spec fn leveled(s: Seq<(&'static str, serde_json::Value)>) -> Seq<
    (Seq<char>, Seq<char>),
> {
    s.map_values(|p: (&'static str, serde_json::Value)| (p.0@, value_text(p.1)))
}

/// A JSON object of these members, each a name and the text of a value.
pub open spec fn json_object(members: Seq<(Seq<char>, Seq<char>)>) -> Seq<char> {
    seq!['{'] + joined(
        members.map_values(|m: (Seq<char>, Seq<char>)| json_string(m.0) + seq![':'] + m.1),
        seq![','],
    ) + seq!['}']
}

/// A request in JSON, its members in the order of their names.
pub open spec fn json_request(
    id: nat,
    module: Seq<char>,
    function: Seq<char>,
    params: Seq<char>,
) -> Seq<char> {
    json_object(
        seq![
            ("function"@, json_string(function)),
            ("id"@, dec(id)),
            ("module"@, json_string(module)),
            ("params"@, params),
        ],
    )
}

/// Makes a JSON string by `serde_json::Value::from`. Claims that it is written as
/// [`json_string`] spells out.
#[verifier::external_body]
fn text_value(s: &str) -> (r: serde_json::Value)
    ensures
        value_text(r) == json_string(s@),
{
    serde_json::Value::from(s)
}

/// Makes a JSON number by `serde_json::Value::from`. Claims that it is written in
/// decimal digits.
#[verifier::external_body]
fn number_value(n: u64) -> (r: serde_json::Value)
    ensures
        value_text(r) == dec(n as nat),
{
    serde_json::Value::from(n)
}

/// Makes a JSON truth value by `serde_json::Value::from`. Claims that it is written as
/// `true` or `false`.
#[verifier::external_body]
fn bool_value(b: bool) -> (r: serde_json::Value)
    ensures
        value_text(r) == json_bool(b),
{
    serde_json::Value::from(b)
}

/// Makes a JSON array by `serde_json::Value::from`. Claims that it is written as the
/// texts of its items, in order, between brackets and with commas between them.
#[verifier::external_body]
fn list_value(items: Vec<serde_json::Value>) -> (r: serde_json::Value)
    ensures
        value_text(r) == json_array(items@.map_values((|v: serde_json::Value| value_text(v)))),
{
    serde_json::Value::from(items)
}

/// Makes a JSON object by collecting members into a `serde_json::Value`. Claims that
/// it is written with its members in the order given, which has to be that of their
/// names: each name begins with a later character than the one before.
#[verifier::external_body]
fn object_value(members: Vec<(&'static str, serde_json::Value)>) -> (r: serde_json::Value)
    requires
        forall|i: int| 0 <= i < members@.len() ==> (#[trigger] members@[i]).0@.len() > 0,
        forall|i: int, j: int|
            0 <= i < j < members@.len() ==> (#[trigger] members@[i]).0@[0] < (
            #[trigger] members@[j]).0@[0],
    ensures
        value_text(r) == json_object(
            members@.map_values((|m: (&'static str, serde_json::Value)| (m.0@, value_text(m.1)))),
        ),
{
    members.into_iter().collect()
}

/// Copies a JSON value by `Clone` of `serde_json::Value`. Claims that the copy is
/// written as the value is.
#[verifier::external_body]
fn copy_value(v: &serde_json::Value) -> (r: serde_json::Value)
    ensures
        value_text(r) == value_text(*v),
{
    v.clone()
}

/// Writes a JSON value by `serde_json::to_vec`. Claims that it succeeds, since a value
/// has only strings for keys and is written to memory; that the bytes are those of the
/// value's text ([`value_text`]); and that none of them is zero, since control
/// characters are always escaped.
#[verifier::external_body]
fn write_value(v: &serde_json::Value) -> (r: Result<Vec<u8>, serde_json::Error>)
    ensures
        r is Ok,
        r matches Ok(b) ==> b@ == encode_utf8(value_text(*v)),
        r matches Ok(b) ==> forall|i: int| 0 <= i < b@.len() ==> b@[i] != 0,
{
    serde_json::to_vec(v)
}

/// What `serde_json::Error` says of itself through `ToString`. Nothing is claimed
/// of the text.
#[verifier::external_body]
fn error_text(e: &serde_json::Error) -> (r: String) {
    e.to_string()
}

/// What a request is about: states of buttons, or levels of faders.
pub enum Params {
    Buttons(Vec<(&'static str, bool)>),
    Levels(Vec<(&'static str, serde_json::Value)>),
}

/// A request to the game.
pub struct Request {
    pub module: &'static str,
    pub function: &'static str,
    pub params: Params,
}

/// What a request is about, with the characters of names and numbers.
#[verifier::ext_equal]
pub enum ParamsModel {
    Buttons(Seq<(Seq<char>, bool)>),
    Levels(Seq<(Seq<char>, Seq<char>)>),
}

/// What a request is.
#[verifier::ext_equal]
pub struct RequestModel {
    pub module: Seq<char>,
    pub function: Seq<char>,
    pub params: ParamsModel,
}

impl View for Params {
    type V = ParamsModel;

    open spec fn view(&self) -> ParamsModel {
        match self {
            Params::Buttons(v) => ParamsModel::Buttons(named(v@)),
            Params::Levels(v) => ParamsModel::Levels(leveled(v@)),
        }
    }
}

impl View for Request {
    type V = RequestModel;

    open spec fn view(&self) -> RequestModel {
        RequestModel { module: self.module@, function: self.function@, params: self.params@ }
    }
}

/// What the requests of a list are.
pub open spec fn requests(v: Seq<Request>) -> Seq<RequestModel> {
    v.map_values(|r: Request| r@)
}

impl RequestModel {
    /// The request in JSON, under this number.
    pub open spec fn json(self, id: nat) -> Seq<char> {
        json_request(
            id,
            self.module,
            self.function,
            match self.params {
                ParamsModel::Buttons(v) => json_buttons(v),
                ParamsModel::Levels(v) => json_levels(v),
            },
        )
    }

    /// The message that carries the request: its JSON and a NUL.
    pub open spec fn message(self, id: nat) -> Seq<u8> {
        encode_utf8(self.json(id)).push(0)
    }
}

/// Whether a message can be told apart in a stream: it ends with a NUL and holds
/// no other.
pub open spec fn framed(message: Seq<u8>) -> bool {
    &&& message.len() > 0
    &&& message.last() == 0
    &&& forall|i: int| 0 <= i < message.len() - 1 ==> message[i] != 0
}

/// Messages can be told apart in a stream: however two streams go on, where they are
/// the same they begin with the same message, and what is left of them is the same.
pub proof fn messages_can_be_told_apart(
    a: Seq<u8>,
    b: Seq<u8>,
    after_a: Seq<u8>,
    after_b: Seq<u8>,
)
    requires
        framed(a),
        framed(b),
        a + after_a == b + after_b,
    ensures
        a == b,
        after_a == after_b,
{
    let stream = a + after_a;
    let (m, n) = (a.len() as int, b.len() as int);
    assert(stream[m - 1] == a[m - 1] && stream[n - 1] == b[n - 1]);
    if m < n {
        assert(stream[m - 1] == b[m - 1]);
    } else if n < m {
        assert(stream[n - 1] == a[n - 1]);
    }
    assert(a =~= stream.take(m));
    assert(b =~= stream.take(n));
    assert(after_a =~= stream.skip(m));
    assert(after_b =~= stream.skip(n));
}

fn pair_value(name: &str, value: serde_json::Value) -> (r: serde_json::Value)
    ensures
        value_text(r) == json_array(seq![json_string(name@), value_text(value)]),
{
    let mut items: Vec<serde_json::Value> = Vec::new();
    items.push(text_value(name));
    items.push(value);
    let ghost texts = items@.map_values((|v: serde_json::Value| value_text(v)));
    assert(texts =~= seq![json_string(name@), value_text(value)]);
    list_value(items)
}

fn buttons_value(v: &Vec<(&'static str, bool)>) -> (r: serde_json::Value)
    ensures
        value_text(r) == json_buttons(named(v@)),
{
    let mut items: Vec<serde_json::Value> = Vec::new();
    let mut i: usize = 0;
    while i < v.len()
        invariant
            i <= v@.len(),
            items@.len() == i,
            forall|j: int|
                0 <= j < i ==> value_text(#[trigger] items@[j]) == json_array(
                    seq![json_string(v@[j].0@), json_bool(v@[j].1)],
                ),
        decreases v@.len() - i,
    {
        let pair = pair_value(v[i].0, bool_value(v[i].1));
        items.push(pair);
        i = i + 1;
    }
    assert(items@.map_values((|v: serde_json::Value| value_text(v))) =~= named(v@).map_values(
        |p: (Seq<char>, bool)| json_array(seq![json_string(p.0), json_bool(p.1)]),
    ));
    list_value(items)
}

fn levels_value(v: &Vec<(&'static str, serde_json::Value)>) -> (r: serde_json::Value)
    ensures
        value_text(r) == json_levels(leveled(v@)),
{
    let mut items: Vec<serde_json::Value> = Vec::new();
    let mut i: usize = 0;
    while i < v.len()
        invariant
            i <= v@.len(),
            items@.len() == i,
            forall|j: int|
                0 <= j < i ==> value_text(#[trigger] items@[j]) == json_array(
                    seq![json_string(v@[j].0@), value_text(v@[j].1)],
                ),
        decreases v@.len() - i,
    {
        let pair = pair_value(v[i].0, copy_value(&v[i].1));
        items.push(pair);
        i = i + 1;
    }
    assert(items@.map_values((|v: serde_json::Value| value_text(v))) =~= leveled(v@).map_values(
        |p: (Seq<char>, Seq<char>)| json_array(seq![json_string(p.0), p.1]),
    ));
    list_value(items)
}

/// The message that carries a request under this number.
pub fn encode(id: u64, req: &Request) -> (r: Result<Vec<u8>, String>)
    ensures
        r matches Ok(b) && b@ == req@.message(id as nat) && framed(b@),
{
    let params = match &req.params {
        Params::Buttons(v) => buttons_value(v),
        Params::Levels(v) => levels_value(v),
    };
    proof {
        reveal_strlit("function");
        reveal_strlit("id");
        reveal_strlit("module");
        reveal_strlit("params");
    }
    let mut members: Vec<(&'static str, serde_json::Value)> = Vec::new();
    members.push(("function", text_value(req.function)));
    members.push(("id", number_value(id)));
    members.push(("module", text_value(req.module)));
    members.push(("params", params));
    assert(members@.map_values(
        (|m: (&'static str, serde_json::Value)| (m.0@, value_text(m.1))),
    ) =~= seq![
        ("function"@, json_string(req.function@)),
        ("id"@, dec(id as nat)),
        ("module"@, json_string(req.module@)),
        ("params"@, value_text(params)),
    ]);
    match write_value(&object_value(members)) {
        Ok(b) => {
            let mut b = b;
            b.push(0);
            Ok(b)
        },
        Err(e) => {
            let mut why = "encode: ".to_owned();
            why.append(error_text(&e).as_str());
            Err(why)
        },
    }
}

/// The items of the array that a JSON object has under a name, each as `Debug` writes
/// it; nothing where the text is no such object.
pub uninterp spec fn listed_under(text: Seq<char>, name: Seq<char>) -> Option<Seq<Seq<char>>>;

/// Reads text by `serde_json::from_str` and returns the items of the array under a
/// name, each as `Debug` of `serde_json::Value` writes it. Claims that the items
/// depend on the text and the name alone ([`listed_under`]), and that there are none
/// where the text is no JSON or has no such array.
#[verifier::external_body]
fn list_under(text: &str, name: &str) -> (r: Option<Vec<String>>)
    ensures
        match r {
            Some(v) => listed_under(text@, name@) == Some(contents(v@)),
            None => listed_under(text@, name@) is None,
        },
{
    let reply: serde_json::Value = serde_json::from_str(text).ok()?;
    let items = reply.get(name)?.as_array()?;
    Some(items.iter().map(|e| format!("{:?}", e)).collect())
}

/// What bytes read as when whatever is no UTF-8 is replaced.
pub uninterp spec fn lossy_text(bytes: Seq<u8>) -> Seq<char>;

/// Reads bytes as text by `String::from_utf8_lossy`. Claims that the text depends
/// on the bytes alone ([`lossy_text`]), and that bytes which are UTF-8 read as what
/// they encode.
#[verifier::external_body]
fn read_lossy(bytes: &[u8]) -> (r: String)
    ensures
        r@ == lossy_text(bytes@),
        valid_utf8(bytes@) ==> r@ == decode_utf8(bytes@),
{
    String::from_utf8_lossy(bytes).into_owned()
}

/// The reply without the NUL that ends it.
pub open spec fn unframed(reply: Seq<u8>) -> Seq<u8> {
    if reply.len() > 0 && reply.last() == 0 {
        reply.drop_last()
    } else {
        reply
    }
}

/// What is logged about complaints: which call, and the list of them.
pub open spec fn complaint_line(
    module: Seq<char>,
    function: Seq<char>,
    complaints: Seq<Seq<char>>,
) -> Seq<char> {
    module + "."@ + function + ": ["@ + joined(complaints, ", "@) + "]"@
}

/// The complaints that were logged already.
pub struct SeenErrors {
    pub seen: Vec<String>,
}

impl SeenErrors {
    /// The lines that were logged.
    pub open spec fn lines(self) -> Seq<Seq<char>> {
        contents(self.seen@)
    }

    /// The line to log about these complaints, where there is one that was not
    /// logged before.
    pub open spec fn news(
        self,
        module: Seq<char>,
        function: Seq<char>,
        complaints: Option<Seq<Seq<char>>>,
    ) -> Option<Seq<char>> {
        match complaints {
            Some(c) => {
                let line = complaint_line(module, function, c);
                if c.len() > 0 && !self.lines().contains(line) {
                    Some(line)
                } else {
                    None
                }
            },
            None => None,
        }
    }

    /// Nothing logged yet.
    pub fn new() -> (r: SeenErrors)
        ensures
            r.lines() == Seq::<Seq<char>>::empty(),
    {
        let r = SeenErrors { seen: Vec::new() };
        assert(r.lines() =~= Seq::<Seq<char>>::empty());
        r
    }

    fn has(&self, line: &str) -> (r: bool)
        ensures
            r == self.lines().contains(line@),
    {
        let mut i: usize = 0;
        while i < self.seen.len()
            invariant
                i <= self.seen.len(),
                forall|j: int| 0 <= j < i ==> (#[trigger] self.lines()[j]) != line@,
            decreases self.seen.len() - i,
        {
            assert(self.lines()[i as int] == self.seen@[i as int]@);
            if same(self.seen[i].as_str(), line) {
                return true;
            }
            i = i + 1;
        }
        false
    }

    /// Takes in the complaints of a reply and returns the line to log, once for
    /// each.
    pub fn note(&mut self, module: &str, function: &str, complaints: Option<Vec<String>>) -> (r:
        Option<String>)
        ensures
            ({
                let given = match complaints {
                    Some(v) => Some(contents(v@)),
                    None => None,
                };
                let news = old(self).news(module@, function@, given);
                &&& r is Some == news is Some
                &&& r matches Some(line) ==> line@ == news->0
                &&& final(self).lines() == (match news {
                    Some(line) => old(self).lines().push(line),
                    None => old(self).lines(),
                })
            }),
    {
        let list = match complaints {
            Some(v) => v,
            None => {
                return None;
            },
        };
        if list.len() == 0 {
            return None;
        }
        let mut line = module.to_owned();
        line.append(".");
        line.append(function);
        line.append(": [");
        line.append(join(&list, ", ").as_str());
        line.append("]");
        if self.has(line.as_str()) {
            return None;
        }
        self.seen.push(line.clone());
        assert(self.lines() =~= old(self).lines().push(line@));
        Some(line)
    }

    /// Looks through a reply for complaints and returns the line to log about them,
    /// once for each.
    pub fn report_errors(&mut self, reply: &Vec<u8>, module: &str, function: &str) -> (r: Option<
        String,
    >)
        ensures
            ({
                let news = old(self).news(
                    module@,
                    function@,
                    listed_under(lossy_text(unframed(reply@)), "errors"@),
                );
                &&& r is Some == news is Some
                &&& r matches Some(line) ==> line@ == news->0
                &&& final(self).lines() == (match news {
                    Some(line) => old(self).lines().push(line),
                    None => old(self).lines(),
                })
            }),
    {
        let n = reply.len();
        let body = if n > 0 && reply[n - 1] == 0 {
            vstd::slice::slice_subrange(reply.as_slice(), 0, n - 1)
        } else {
            reply.as_slice()
        };
        assert(body@ =~= unframed(reply@));
        let text = read_lossy(body);
        let found = list_under(text.as_str(), "errors");
        self.note(module, function, found)
    }
}

/// A complaint is logged once: right after it was noted, the same complaint is no
/// news.
pub proof fn a_complaint_is_logged_once(
    before: SeenErrors,
    after: SeenErrors,
    module: Seq<char>,
    function: Seq<char>,
    complaints: Seq<Seq<char>>,
)
    requires
        after.lines() == (match before.news(module, function, Some(complaints)) {
            Some(line) => before.lines().push(line),
            None => before.lines(),
        }),
    ensures
        after.news(module, function, Some(complaints)) is None,
{
    let line = complaint_line(module, function, complaints);
    if before.news(module, function, Some(complaints)) is Some {
        assert(before.lines().push(line).last() == line);
    }
}

} // verus!
