use vstd::prelude::*;
use vstd::string::*;

use crate::error::TraceError;
use crate::text::{
    decimal,
    decimal_text,
    join,
    join_texts,
    signed_decimal,
    signed_decimal_text,
    texts_of,
};

verus! {

/// One value of a metadata record, in the shape of a JSON value.
#[derive(Debug, PartialEq, Eq)]
pub enum Field {
    /// A field that is absent.
    Null,
    Bool(bool),
    /// A whole number that is not negative.
    Unsigned(u64),
    /// A whole number.
    Signed(i64),
    /// A number that is not whole, as the text its source gave for it.
    Decimal(String),
    Text(String),
    List(Vec<Field>),
    /// Named fields, in the order of their source; a name may occur twice.
    Record(Vec<(String, Field)>),
}

/// What a field holds: the mathematical value that contracts speak of.
pub enum FieldView {
    Null,
    Bool(bool),
    Unsigned(u64),
    Signed(i64),
    Decimal(Seq<char>),
    Text(Seq<char>),
    List(Seq<FieldView>),
    Record(Seq<(Seq<char>, FieldView)>),
}

impl View for Field {
    type V = FieldView;

    open spec fn view(&self) -> FieldView {
        field_view(*self)
    }
}

/// What a field holds.
pub open spec fn field_view(field: Field) -> FieldView
    decreases field,
{
    match field {
        Field::Null => FieldView::Null,
        Field::Bool(b) => FieldView::Bool(b),
        Field::Unsigned(n) => FieldView::Unsigned(n),
        Field::Signed(n) => FieldView::Signed(n),
        Field::Decimal(digits) => FieldView::Decimal(digits@),
        Field::Text(text) => FieldView::Text(text@),
        Field::List(items) => FieldView::List(items_view(items@)),
        Field::Record(members) => FieldView::Record(members_view(members@)),
    }
}

/// What each item of a list holds.
pub open spec fn items_view(items: Seq<Field>) -> Seq<FieldView>
    decreases items,
{
    if items.len() == 0 {
        Seq::empty()
    } else {
        items_view(items.drop_last()).push(field_view(items.last()))
    }
}

/// The name of each member of a record, and what the member holds.
pub open spec fn members_view(members: Seq<(String, Field)>) -> Seq<(Seq<char>, FieldView)>
    decreases members,
{
    if members.len() == 0 {
        Seq::empty()
    } else {
        members_view(members.drop_last()).push((members.last().0@, field_view(members.last().1)))
    }
}

/// One attribute of a span.
#[derive(Clone, Debug, PartialEq, Eq)]
pub struct Attribute {
    pub key: String,
    pub value: String,
}

impl View for Attribute {
    type V = (Seq<char>, Seq<char>);

    open spec fn view(&self) -> (Seq<char>, Seq<char>) {
        (self.key@, self.value@)
    }
}

/// The key and the value of each attribute of a sequence.
pub open spec fn pairs_of(attributes: Seq<Attribute>) -> Seq<(Seq<char>, Seq<char>)> {
    attributes.map_values(|a: Attribute| a@)
}

/// The JSON string literal for `text` as the serde_json crate writes it:
/// the text between double quotes, with the characters that JSON does not
/// allow there escaped.
pub uninterp spec fn json_string_text(text: Seq<char>) -> Seq<char>;

/// `to_string` on a `serde_json::Value::String` that holds `text`: the
/// value written as compact JSON. Nothing is proved of it. The contract only
/// names the literal that serde_json writes, which depends on nothing but
/// the text; it does not say what the literal holds.
#[verifier::external_body]
fn json_string(text: &str) -> (literal: String)
    ensures
        literal@ == json_string_text(text@),
{
    serde_json::Value::String(text.to_owned()).to_string()
}

/// The compact JSON text of a field.
pub open spec fn json_text(field: FieldView) -> Seq<char>
    decreases field,
{
    match field {
        FieldView::Null => "null"@,
        FieldView::Bool(b) => if b {
            "true"@
        } else {
            "false"@
        },
        FieldView::Unsigned(n) => decimal_text(n as nat),
        FieldView::Signed(n) => signed_decimal_text(n as int),
        FieldView::Decimal(digits) => digits,
        FieldView::Text(text) => json_string_text(text),
        FieldView::List(items) => "["@ + join_texts(item_texts(items), ","@) + "]"@,
        FieldView::Record(members) => "{"@ + join_texts(member_texts(members), ","@) + "}"@,
    }
}

/// The compact JSON text of each item of a list.
pub open spec fn item_texts(items: Seq<FieldView>) -> Seq<Seq<char>>
    decreases items,
{
    if items.len() == 0 {
        Seq::empty()
    } else {
        item_texts(items.drop_last()).push(json_text(items.last()))
    }
}

/// A member of a JSON object: the name as a string literal, a colon, the value.
pub open spec fn member_text(name: Seq<char>, value: Seq<char>) -> Seq<char> {
    json_string_text(name) + ":"@ + value
}

/// The text of each member of a record, as it stands in a JSON object.
pub open spec fn member_texts(members: Seq<(Seq<char>, FieldView)>) -> Seq<Seq<char>>
    decreases members,
{
    if members.len() == 0 {
        Seq::empty()
    } else {
        member_texts(members.drop_last()).push(
            member_text(members.last().0, json_text(members.last().1)),
        )
    }
}

/// The value of the attribute that a member of a record gives, if it gives
/// one. An absent member gives none; a list gives its items, each as JSON
/// text, joined by commas; any other member gives its JSON text, a nested
/// record as a whole.
pub open spec fn attribute_text(field: FieldView) -> Option<Seq<char>> {
    match field {
        FieldView::Null => None,
        FieldView::List(items) => Some(join_texts(item_texts(items), ","@)),
        _ => Some(json_text(field)),
    }
}

/// The attributes that the members of a record give, in the members' order.
pub open spec fn flattened(members: Seq<(Seq<char>, FieldView)>) -> Seq<(Seq<char>, Seq<char>)>
    decreases members.len(),
{
    if members.len() == 0 {
        Seq::empty()
    } else {
        let earlier = flattened(members.drop_last());
        match attribute_text(members.last().1) {
            Some(value) => earlier.push((members.last().0, value)),
            None => earlier,
        }
    }
}

/// What `flatten` returns for a field.
pub open spec fn flatten_outcome(record: FieldView) -> Result<
    Seq<(Seq<char>, Seq<char>)>,
    TraceError,
> {
    match record {
        FieldView::Record(members) => Ok(flattened(members)),
        _ => Err(TraceError::UnsupportedRecordShape),
    }
}

/// Whether `attributes` is what `outcome` holds, where it holds attributes.
pub open spec fn is_flatten_outcome(
    res: Result<Vec<Attribute>, TraceError>,
    outcome: Result<Seq<(Seq<char>, Seq<char>)>, TraceError>,
) -> bool {
    match res {
        Ok(attributes) => outcome == Ok::<Seq<(Seq<char>, Seq<char>)>, TraceError>(
            pairs_of(attributes@),
        ),
        Err(e) => outcome == Err::<Seq<(Seq<char>, Seq<char>)>, TraceError>(e),
    }
}

/// Writes a member of a JSON object from its name, already a string literal,
/// and the text of its value.
pub fn json_member(name_literal: &str, value: &str) -> (text: String)
    ensures
        text@ == name_literal@ + ":"@ + value@,
{
    let mut text = String::from_str(name_literal);
    text.append(":");
    text.append(value);
    text
}

/// Puts `body` between `open` and `close`.
pub fn enclose(open: &str, body: &str, close: &str) -> (text: String)
    ensures
        text@ == open@ + body@ + close@,
{
    let mut text = String::from_str(open);
    text.append(body);
    text.append(close);
    text
}

/// Renders a field as compact JSON.
pub fn render_json(field: &Field) -> (text: String)
    ensures
        text@ == json_text(field@),
    decreases field,
{
    match field {
        Field::Null => String::from_str("null"),
        Field::Bool(b) => {
            if *b {
                String::from_str("true")
            } else {
                String::from_str("false")
            }
        },
        Field::Unsigned(n) => decimal(*n),
        Field::Signed(n) => signed_decimal(*n),
        Field::Decimal(digits) => digits.clone(),
        Field::Text(text) => json_string(text.as_str()),
        Field::List(items) => {
            let parts = render_items(items);
            let body = join(&parts, ",");
            enclose("[", body.as_str(), "]")
        },
        Field::Record(members) => {
            let parts = render_members(members);
            let body = join(&parts, ",");
            enclose("{", body.as_str(), "}")
        },
    }
}

/// Renders each item of a list as compact JSON.
pub fn render_items(items: &Vec<Field>) -> (parts: Vec<String>)
    ensures
        texts_of(parts@) == item_texts(items_view(items@)),
    decreases items,
{
    let mut parts: Vec<String> = Vec::new();
    let mut i: usize = 0;
    assert(texts_of(parts@) =~= item_texts(items_view(items@.take(0))));
    while i < items.len()
        invariant
            i <= items.len(),
            texts_of(parts@) == item_texts(items_view(items@.take(i as int))),
        decreases items.len() - i,
    {
        let part = render_json(&items[i]);
        proof {
            let next = items@.take(i + 1);
            assert(next.drop_last() =~= items@.take(i as int));
            assert(next.last() == items@[i as int]);
            let viewed = items_view(next);
            assert(viewed.drop_last() =~= items_view(items@.take(i as int)));
            assert(texts_of(parts@.push(part)) =~= texts_of(parts@).push(part@));
        }
        parts.push(part);
        i += 1;
    }
    assert(items@.take(items.len() as int) =~= items@);
    parts
}

/// Renders each member of a record as it stands in a JSON object.
pub fn render_members(members: &Vec<(String, Field)>) -> (parts: Vec<String>)
    ensures
        texts_of(parts@) == member_texts(members_view(members@)),
    decreases members,
{
    let mut parts: Vec<String> = Vec::new();
    let mut i: usize = 0;
    assert(texts_of(parts@) =~= member_texts(members_view(members@.take(0))));
    while i < members.len()
        invariant
            i <= members.len(),
            texts_of(parts@) == member_texts(members_view(members@.take(i as int))),
        decreases members.len() - i,
    {
        let name = json_string(members[i].0.as_str());
        let value = render_json(&members[i].1);
        let part = json_member(name.as_str(), value.as_str());
        proof {
            let next = members@.take(i + 1);
            assert(next.drop_last() =~= members@.take(i as int));
            assert(next.last() == members@[i as int]);
            let viewed = members_view(next);
            assert(viewed.drop_last() =~= members_view(members@.take(i as int)));
            assert(texts_of(parts@.push(part)) =~= texts_of(parts@).push(part@));
        }
        parts.push(part);
        i += 1;
    }
    assert(members@.take(members.len() as int) =~= members@);
    parts
}

/// Renders the value of the attribute that a member of a record gives, if
/// it gives one.
pub fn render_attribute(field: &Field) -> (text: Option<String>)
    ensures
        text is Some == attribute_text(field@) is Some,
        text matches Some(t) ==> attribute_text(field@) == Some(t@),
{
    match field {
        Field::Null => None,
        Field::List(items) => {
            let parts = render_items(items);
            Some(join(&parts, ","))
        },
        _ => Some(render_json(field)),
    }
}

/// Turns a metadata record into span attributes, one for each member that
/// is not absent, in the members' order. Anything but a record is refused.
///
/// Flattening does not descend: a member that is itself a record becomes one
/// attribute whose value is the JSON text of the whole member.
pub fn flatten(record: &Field) -> (res: Result<Vec<Attribute>, TraceError>)
    ensures
        is_flatten_outcome(res, flatten_outcome(record@)),
{
    match record {
        Field::Record(members) => {
            let mut attributes: Vec<Attribute> = Vec::new();
            let mut i: usize = 0;
            assert(pairs_of(attributes@) =~= flattened(members_view(members@.take(0))));
            while i < members.len()
                invariant
                    i <= members.len(),
                    pairs_of(attributes@) == flattened(members_view(members@.take(i as int))),
                decreases members.len() - i,
            {
                proof {
                    let next = members@.take(i + 1);
                    assert(next.drop_last() =~= members@.take(i as int));
                    assert(next.last() == members@[i as int]);
                    let viewed = members_view(next);
                    assert(viewed.drop_last() =~= members_view(members@.take(i as int)));
                }
                match render_attribute(&members[i].1) {
                    Some(value) => {
                        let attribute = Attribute { key: members[i].0.clone(), value };
                        assert(pairs_of(attributes@.push(attribute)) =~= pairs_of(
                            attributes@,
                        ).push(attribute@));
                        attributes.push(attribute);
                    },
                    None => {},
                }
                i += 1;
            }
            assert(members@.take(members.len() as int) =~= members@);
            Ok(attributes)
        },
        _ => Err(TraceError::UnsupportedRecordShape),
    }
}

/// Flattening goes member by member: what two runs of members give one
/// after the other is what the members give together.
pub proof fn lemma_flattened_concat(
    first: Seq<(Seq<char>, FieldView)>,
    second: Seq<(Seq<char>, FieldView)>,
)
    ensures
        flattened(first + second) == flattened(first) + flattened(second),
    decreases second.len(),
{
    if second.len() == 0 {
        assert(first + second =~= first);
        assert(flattened(first) + flattened(second) =~= flattened(first));
    } else {
        assert((first + second).drop_last() =~= first + second.drop_last());
        assert((first + second).last() == second.last());
        lemma_flattened_concat(first, second.drop_last());
        match attribute_text(second.last().1) {
            Some(value) => {
                assert(flattened(first + second) =~= flattened(first) + flattened(second));
            },
            None => {},
        }
    }
}

/// A single member gives one attribute under its own name, and none where
/// it is absent.
pub proof fn lemma_flattened_one(name: Seq<char>, field: FieldView)
    ensures
        field is Null ==> flattened(seq![(name, field)]) == Seq::<(Seq<char>, Seq<char>)>::empty(),
        !(field is Null) ==> flattened(seq![(name, field)]) == seq![
            (name, attribute_text(field)->0),
        ],
{
    let members = seq![(name, field)];
    assert(members.drop_last() =~= Seq::empty());
    assert(flattened(members.drop_last()) =~= Seq::empty());
    if !(field is Null) {
        assert(flattened(members) =~= seq![(name, attribute_text(field)->0)]);
    }
}

/// Flattening never gives more attributes than there are members, and it
/// gives as many where no member is absent.
pub proof fn lemma_flattened_len(members: Seq<(Seq<char>, FieldView)>)
    ensures
        flattened(members).len() <= members.len(),
        (forall|i: int| 0 <= i < members.len() ==> !((#[trigger] members[i]).1 is Null))
            ==> flattened(members).len() == members.len(),
    decreases members.len(),
{
    if members.len() > 0 {
        lemma_flattened_len(members.drop_last());
        assert(members.last() == members[members.len() - 1]);
        assert forall|i: int| 0 <= i < members.drop_last().len() implies members.drop_last()[i]
            == members[i] by {}
    }
}

} // verus!
