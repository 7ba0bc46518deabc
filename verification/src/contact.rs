//! The contact record and its JSON text.

use crate::request::{all_digits, decimal, id_value};
use vstd::prelude::*;
use vstd::string::*;

verus! {

/// One contact. A record that the table holds carries the identifier that
/// the table gave it; one decoded from a request may carry none.
#[derive(Clone, Debug, PartialEq, Eq)]
pub struct Contact {
    pub id: Option<i32>,
    pub name: String,
    pub email: String,
    pub phone: String,
}

/// A contact as contracts see it.
pub ghost struct ContactView {
    pub id: Option<i32>,
    pub name: Seq<char>,
    pub email: Seq<char>,
    pub phone: Seq<char>,
}

impl View for Contact {
    type V = ContactView;

    open spec fn view(&self) -> ContactView {
        ContactView { id: self.id, name: self.name@, email: self.email@, phone: self.phone@ }
    }
}

impl DeepView for Contact {
    type V = ContactView;

    open spec fn deep_view(&self) -> ContactView {
        self@
    }
}

/// The views of `rows`, in their order.
pub open spec fn views(rows: Seq<Contact>) -> Seq<ContactView> {
    rows.map_values(|c: Contact| c@)
}

/// The decimal digit that writes `d`, for `d` below ten.
pub open spec fn digit(d: int) -> char {
    ('0' as u8 + d) as u8 as char
}

/// The digits that write `n` in base ten, the highest first and none of
/// them a leading zero.
pub open spec fn digits_of(n: nat) -> Seq<char>
    decreases n,
{
    if n < 10 {
        seq![digit(n as int)]
    } else {
        digits_of(n / 10).push(digit((n % 10) as int))
    }
}

/// The JSON value of an identifier that may be missing: `null` for none, and
/// for a number its digits in base ten, behind a `-` where it is negative.
pub open spec fn json_id(id: Option<i32>) -> Seq<char> {
    match id {
        None => "null"@,
        Some(n) => if n < 0 {
            seq!['-'] + digits_of((-n) as nat)
        } else {
            digits_of(n as nat)
        },
    }
}

/// Whether JSON takes `text` as it stands: it holds no `"`, no `\` and no
/// character below U+0020.
pub open spec fn is_plain(text: Seq<char>) -> bool {
    forall|i: int|
        0 <= i < text.len() ==> (#[trigger] text[i]) != '"' && text[i] != '\\' && text[i] as u32
            >= 0x20
}

/// The JSON string that `serde_json` writes for a text that is not plain: the
/// text between double quotes, escaped as `serde_json` escapes it. Nothing
/// more is said of it here.
pub uninterp spec fn escaped_text(text: Seq<char>) -> Seq<char>;

/// The JSON string of a text: a plain text between double quotes as it
/// stands, any other as `serde_json` escapes it.
pub open spec fn json_text(text: Seq<char>) -> Seq<char> {
    if is_plain(text) {
        seq!['"'] + text + seq!['"']
    } else {
        escaped_text(text)
    }
}

/// Calls `serde_json::to_string` on a string slice.
///
/// Taken on trust, not proved: of a plain text the call hands back the text
/// between two double quotes; of any other it hands back `escaped_text` of
/// the text, which is to say that what it writes depends on the text alone.
/// It does not fail, since it writes a string into memory.
#[verifier::external_body]
fn encode_text(text: &str) -> (out: String)
    ensures
        is_plain(text@) ==> out@ == seq!['"'] + text@ + seq!['"'],
        !is_plain(text@) ==> out@ == escaped_text(text@),
{
    serde_json::to_string(text).unwrap()
}

/// Calls `serde_json::to_string` on an optional `i32`.
///
/// Taken on trust, not proved: the call hands back `null` for none, and for a
/// number its digits in base ten without a leading zero, behind a `-` where
/// it is negative. It does not fail, since it writes into memory.
#[verifier::external_body]
fn encode_id(id: Option<i32>) -> (out: String)
    ensures
        out@ == json_id(id),
{
    serde_json::to_string(&id).unwrap()
}

/// What `digits_of` gives is a number as `decimal` reads it: digits only,
/// one at least, that write `n`, the first a zero for zero alone.
pub proof fn lemma_digits_write_the_number(n: nat)
    ensures
        digits_of(n).len() > 0,
        all_digits(digits_of(n)),
        decimal(digits_of(n)) == n,
        digits_of(n)[0] == '0' <==> n == 0,
    decreases n,
{
    let text = digits_of(n);
    assert(text.last() as int - '0' as int == n % 10);
    if n >= 10 {
        lemma_digits_write_the_number(n / 10);
        assert(text.drop_last() =~= digits_of(n / 10));
        assert(text[0] == digits_of(n / 10)[0]);
    } else {
        assert(text.drop_last() =~= Seq::<char>::empty());
        assert(decimal(Seq::<char>::empty()) == 0);
    }
}

/// The identifier in the JSON of a contact reads back from a path: the text
/// that is written for a number is one that `id_value` reads as that number.
pub proof fn lemma_id_json_reads_back(n: i32)
    ensures
        id_value(json_id(Some(n))) == Some(n),
{
    let text = json_id(Some(n));
    if n < 0 {
        lemma_digits_write_the_number((-n) as nat);
        assert(text.skip(1) =~= digits_of((-n) as nat));
    } else {
        lemma_digits_write_the_number(n as nat);
    }
}

/// The JSON object with these four members, each already written as JSON:
/// `id`, `name`, `email`, `phone` in this order, without any space.
pub open spec fn object_text(
    id: Seq<char>,
    name: Seq<char>,
    email: Seq<char>,
    phone: Seq<char>,
) -> Seq<char> {
    "{\"id\":"@ + id + ",\"name\":"@ + name + ",\"email\":"@ + email + ",\"phone\":"@ + phone
        + "}"@
}

/// The JSON object with these four members, each already written as JSON.
pub fn object_json(id: &str, name: &str, email: &str, phone: &str) -> (out: String)
    ensures
        out@ == object_text(id@, name@, email@, phone@),
{
    let mut out = "{\"id\":".to_owned();
    out.append(id);
    out.append(",\"name\":");
    out.append(name);
    out.append(",\"email\":");
    out.append(email);
    out.append(",\"phone\":");
    out.append(phone);
    out.append("}");
    out
}

/// The texts `items` in their order, a comma between neighbours.
pub open spec fn joined(items: Seq<Seq<char>>) -> Seq<char>
    decreases items.len(),
{
    if items.len() == 0 {
        Seq::empty()
    } else if items.len() == 1 {
        items[0]
    } else {
        joined(items.drop_last()) + ","@ + items.last()
    }
}

/// The JSON array of `items`, each already written as JSON.
pub open spec fn array_text(items: Seq<Seq<char>>) -> Seq<char> {
    "["@ + joined(items) + "]"@
}

/// The views of `items`, in their order.
pub open spec fn texts(items: Seq<String>) -> Seq<Seq<char>> {
    items.map_values(|item: String| item@)
}

/// The JSON array of `items`, each already written as JSON.
pub fn array_json(items: &Vec<String>) -> (out: String)
    ensures
        out@ == array_text(texts(items@)),
{
    let mut out = "[".to_owned();
    let mut i: usize = 0;
    while i < items.len()
        invariant
            i <= items.len(),
            out@ == "["@ + joined(texts(items@).take(i as int)),
        decreases items.len() - i,
    {
        let ghost before = texts(items@).take(i as int);
        let ghost after = texts(items@).take(i + 1);
        assert(after.drop_last() =~= before);
        assert(after.last() == items@[i as int]@);
        if i > 0 {
            out.append(",");
        }
        out.append(items[i].as_str());
        assert(out@ =~= "["@ + joined(after));
        i += 1;
    }
    assert(texts(items@).take(items.len() as int) =~= texts(items@));
    out.append("]");
    out
}

/// The JSON object of one contact.
pub open spec fn contact_json(c: ContactView) -> Seq<char> {
    object_text(json_id(c.id), json_text(c.name), json_text(c.email), json_text(c.phone))
}

/// The JSON array of `rows`, in their order.
pub open spec fn contacts_json(rows: Seq<ContactView>) -> Seq<char> {
    array_text(rows.map_values(|c: ContactView| contact_json(c)))
}

impl Contact {
    /// The JSON object of this contact.
    pub fn to_json(&self) -> (out: String)
        ensures
            out@ == contact_json(self@),
    {
        let id = encode_id(self.id);
        let name = encode_text(self.name.as_str());
        let email = encode_text(self.email.as_str());
        let phone = encode_text(self.phone.as_str());
        object_json(id.as_str(), name.as_str(), email.as_str(), phone.as_str())
    }
}

/// The JSON array of `rows`.
pub fn list_to_json(rows: &Vec<Contact>) -> (out: String)
    ensures
        out@ == contacts_json(views(rows@)),
{
    let mut items: Vec<String> = Vec::new();
    let mut i: usize = 0;
    while i < rows.len()
        invariant
            i <= rows.len(),
            items.len() == i,
            forall|k: int| 0 <= k < i ==> (#[trigger] items@[k])@ == contact_json(rows@[k]@),
        decreases rows.len() - i,
    {
        items.push(rows[i].to_json());
        i += 1;
    }
    assert(texts(items@) =~= views(rows@).map_values(|c: ContactView| contact_json(c)));
    array_json(&items)
}

} // verus!
