//! JSON documents as trees, read and printed by `serde_json`.

use vstd::prelude::*;

verus! {

/// A JSON document.
///
/// A number that fits `i64` is an `Integer`; any other number (a fraction,
/// an exponent, an integer beyond `i64`) is a `Decimal` and keeps its text.
/// An object keeps its members in document order.
#[derive(Debug, PartialEq, Eq)]
pub enum Json {
    Null,
    Boolean(bool),
    Integer(i64),
    Decimal(String),
    Text(String),
    Array(Vec<Json>),
    Object(Vec<(String, Json)>),
}

/// The mathematical value of a [`Json`] document.
pub enum JsonView {
    Null,
    Boolean(bool),
    Integer(i64),
    Decimal(Seq<char>),
    Text(Seq<char>),
    Array(Seq<JsonView>),
    Object(Seq<(Seq<char>, JsonView)>),
}

impl View for Json {
    type V = JsonView;

    open spec fn view(&self) -> JsonView
        decreases self,
    {
        match self {
            Json::Null => JsonView::Null,
            Json::Boolean(b) => JsonView::Boolean(*b),
            Json::Integer(n) => JsonView::Integer(*n),
            Json::Decimal(text) => JsonView::Decimal(text@),
            Json::Text(text) => JsonView::Text(text@),
            Json::Array(items) => JsonView::Array(
                Seq::new(
                    items.len() as nat,
                    |i: int|
                        if 0 <= i < items.len() {
                            items[i].view()
                        } else {
                            JsonView::Null
                        },
                ),
            ),
            Json::Object(members) => JsonView::Object(
                Seq::new(
                    members.len() as nat,
                    |i: int|
                        if 0 <= i < members.len() {
                            (members[i].0@, members[i].1.view())
                        } else {
                            (Seq::empty(), JsonView::Null)
                        },
                ),
            ),
        }
    }
}

/// Makes `serde_json::Value` known as a type. Nothing is known of what a
/// value holds but through `value_tree`.
#[verifier::external_type_specification]
#[verifier::external_body]
pub struct ExValue(serde_json::Value);

/// The document that `serde_json::from_str` reads from `text` as a
/// `serde_json::Value`, or `None` where it reports an error.
pub uninterp spec fn parsed_json(text: Seq<char>) -> Option<JsonView>;

/// The document that `serde_json::from_slice` reads from `bytes` as a
/// `serde_json::Value`, or `None` where it reports an error.
pub uninterp spec fn parsed_json_bytes(bytes: Seq<u8>) -> Option<JsonView>;

/// What a `serde_json::Value` holds: its variants one for one, an object's
/// members in the order in which the value yields them. A number is an
/// `Integer` where `as_i64` gives one, else a `Decimal` with the text that
/// the number prints as.
pub uninterp spec fn value_tree(value: serde_json::Value) -> JsonView;

/// The compact text that a `serde_json::Value` holding `tree` prints as.
pub uninterp spec fn printed_json(tree: JsonView) -> Seq<char>;

/// Whether a document can be handed to the printer as it stands: it holds no
/// `Decimal`, and no object in it has two members of one name.
pub open spec fn canonical(tree: JsonView) -> bool
    decreases tree,
{
    match tree {
        JsonView::Decimal(_) => false,
        JsonView::Array(items) => forall|i: int|
            0 <= i < items.len() ==> canonical(#[trigger] items[i]),
        JsonView::Object(members) => {
            &&& forall|i: int| 0 <= i < members.len() ==> canonical((#[trigger] members[i]).1)
            &&& forall|i: int, k: int|
                0 <= i < k < members.len() ==> (#[trigger] members[i]).0 != (
                #[trigger] members[k]).0
        },
        _ => true,
    }
}

/// The value of the first member called `name` at or after position `from`.
pub open spec fn find_from(members: Seq<(Seq<char>, JsonView)>, name: Seq<char>, from: int)
    -> Option<JsonView>
    decreases members.len() - from,
{
    if from < 0 || from >= members.len() {
        None
    } else if members[from].0 == name {
        Some(members[from].1)
    } else {
        find_from(members, name, from + 1)
    }
}

/// The value of the first member called `name`, if `tree` is an object that
/// has one.
pub open spec fn field(tree: JsonView, name: Seq<char>) -> Option<JsonView> {
    match tree {
        JsonView::Object(members) => find_from(members, name, 0),
        _ => None,
    }
}

/// Calls `serde_json::from_str` for a `serde_json::Value`. Trusted: the
/// outcome depends on the text alone.
#[verifier::external_body]
fn read_value(text: &str) -> (r: Option<serde_json::Value>)
    ensures
        r is Some <==> parsed_json(text@) is Some,
        r matches Some(value) ==> parsed_json(text@) == Some(value_tree(value)),
{
    serde_json::from_str::<serde_json::Value>(text).ok()
}

/// Calls `serde_json::from_slice` for a `serde_json::Value`. Trusted: the
/// outcome depends on the bytes alone.
#[verifier::external_body]
fn read_value_bytes(bytes: &[u8]) -> (r: Option<serde_json::Value>)
    ensures
        r is Some <==> parsed_json_bytes(bytes@) is Some,
        r matches Some(value) ==> parsed_json_bytes(bytes@) == Some(value_tree(value)),
{
    serde_json::from_slice::<serde_json::Value>(bytes).ok()
}

/// Takes a `serde_json::Value` apart, variant by variant, with
/// `serde_json::Number::as_i64` for a number. Trusted: the tree is what the
/// value holds.
#[verifier::external_body]
fn tree_of(value: serde_json::Value) -> (tree: Json)
    ensures
        tree@ == value_tree(value),
{
    match value {
        serde_json::Value::Null => Json::Null,
        serde_json::Value::Bool(b) => Json::Boolean(b),
        serde_json::Value::Number(n) => n.as_i64().map_or_else(|| Json::Decimal(n.to_string()), Json::Integer),
        serde_json::Value::String(text) => Json::Text(text),
        serde_json::Value::Array(items) => Json::Array(items.into_iter().map(tree_of).collect()),
        serde_json::Value::Object(members) => Json::Object(
            members.into_iter().map(|(name, member)| (name, tree_of(member))).collect(),
        ),
    }
}

/// Builds the `serde_json::Value` that holds a canonical document, with
/// `serde_json::Value::from` for an integer. Trusted: the value holds the
/// document, its members in the same order. A `Decimal`, which a canonical
/// document does not have, would become `null`.
#[verifier::external_body]
fn value_of(tree: &Json) -> (value: serde_json::Value)
    requires
        canonical(tree@),
    ensures
        value_tree(value) == tree@,
{
    match tree {
        Json::Null | Json::Decimal(_) => serde_json::Value::Null,
        Json::Boolean(b) => serde_json::Value::Bool(*b),
        Json::Integer(n) => serde_json::Value::from(*n),
        Json::Text(text) => serde_json::Value::String(text.clone()),
        Json::Array(items) => serde_json::Value::Array(items.iter().map(value_of).collect()),
        Json::Object(members) => serde_json::Value::Object(
            members.iter().map(|(name, member)| (name.clone(), value_of(member))).collect(),
        ),
    }
}

/// Calls `to_string` of `serde_json::Value`, which prints the compact form.
/// Trusted: the text depends only on what the value holds.
#[verifier::external_body]
fn print_value(value: &serde_json::Value) -> (text: String)
    ensures
        text@ == printed_json(value_tree(*value)),
{
    value.to_string()
}

impl Json {
    /// Reads a document from its text. Fails exactly where `serde_json`
    /// reports an error.
    pub fn parse(text: &str) -> (r: Option<Json>)
        ensures
            r is Some <==> parsed_json(text@) is Some,
            r matches Some(tree) ==> parsed_json(text@) == Some(tree@),
    {
        match read_value(text) {
            Some(value) => Some(tree_of(value)),
            None => None,
        }
    }

    /// Reads a document from the bytes of its text. Fails exactly where
    /// `serde_json` reports an error.
    pub fn parse_bytes(bytes: &[u8]) -> (r: Option<Json>)
        ensures
            r is Some <==> parsed_json_bytes(bytes@) is Some,
            r matches Some(tree) ==> parsed_json_bytes(bytes@) == Some(tree@),
    {
        match read_value_bytes(bytes) {
            Some(value) => Some(tree_of(value)),
            None => None,
        }
    }

    /// Prints a canonical document in compact form.
    pub fn print(&self) -> (text: String)
        requires
            canonical(self@),
        ensures
            text@ == printed_json(self@),
    {
        let value = value_of(self);
        print_value(&value)
    }

    /// The value of the first member called `name`, if this is an object
    /// that has one.
    pub fn field(&self, name: &str) -> (r: Option<&Json>)
        ensures
            r is Some <==> field(self@, name@) is Some,
            r matches Some(member) ==> field(self@, name@) == Some(member@),
    {
        match self {
            Json::Object(members) => {
                let wanted = name.to_owned();
                let mut i: usize = 0;
                proof {
                    Json::lemma_object_view(*members);
                }
                while i < members.len()
                    invariant
                        i <= members.len(),
                        wanted@ == name@,
                        self@ matches JsonView::Object(all) && all.len() == members.len()
                            && find_from(all, name@, 0) == find_from(all, name@, i as int)
                            && forall|k: int|
                            0 <= k < members.len() ==> (#[trigger] all[k]) == (
                            members[k].0@,
                            members[k].1@,
                        ),
                    decreases members.len() - i,
                {
                    if members[i].0 == wanted {
                        return Some(&members[i].1);
                    }
                    i += 1;
                }
                None
            },
            _ => None,
        }
    }

    /// The view of an object, member by member.
    pub proof fn lemma_object_view(members: Vec<(String, Json)>)
        ensures
            Json::Object(members)@ matches JsonView::Object(all) && all.len() == members.len()
                && forall|k: int|
                0 <= k < members.len() ==> (#[trigger] all[k]) == (members[k].0@, members[k].1@),
    {
        reveal_with_fuel(<Json as View>::view, 2);
    }

    /// The view of an array, item by item.
    pub proof fn lemma_array_view(items: Vec<Json>)
        ensures
            Json::Array(items)@ matches JsonView::Array(all) && all.len() == items.len()
                && forall|k: int| 0 <= k < items.len() ==> (#[trigger] all[k]) == items[k]@,
    {
        reveal_with_fuel(<Json as View>::view, 2);
    }

    /// An array can be printed as it stands where each of its items can.
    pub proof fn lemma_array_canonical(items: Seq<JsonView>)
        requires
            forall|i: int| 0 <= i < items.len() ==> canonical(#[trigger] items[i]),
        ensures
            canonical(JsonView::Array(items)),
    {
    }

    /// A member of an object under construction.
    pub fn member(name: &str, value: Json) -> (r: (String, Json))
        ensures
            r.0@ == name@,
            r.1 == value,
    {
        (name.to_owned(), value)
    }
}

/// An object with the single member `name`.
pub open spec fn tagged(name: Seq<char>, body: JsonView) -> JsonView {
    JsonView::Object(seq![(name, body)])
}

/// The name and the body of an object with a single member.
pub open spec fn tag_of(tree: JsonView) -> Option<(Seq<char>, JsonView)> {
    match tree {
        JsonView::Object(members) => if members.len() == 1 {
            Some(members[0])
        } else {
            None
        },
        _ => None,
    }
}

/// An object with a single member can be printed as it stands where its
/// body can.
pub proof fn lemma_tagged_canonical(name: Seq<char>, body: JsonView)
    requires
        canonical(body),
    ensures
        canonical(tagged(name, body)),
{
}

/// The single member of a tagged object is found under its name.
pub proof fn lemma_tagged_field(name: Seq<char>, body: JsonView)
    ensures
        tag_of(tagged(name, body)) == Some((name, body)),
        field(tagged(name, body), name) == Some(body),
{
    reveal_with_fuel(find_from, 2);
}

/// Builds the object with the single member `name`.
pub fn tag(name: &str, body: Json) -> (tree: Json)
    ensures
        tree@ == tagged(name@, body@),
{
    let members = vec![Json::member(name, body)];
    proof {
        Json::lemma_object_view(members);
        assert(Json::Object(members)@->Object_0 =~= tagged(name@, body@)->Object_0);
    }
    Json::Object(members)
}

/// The name and the body of an object with a single member.
pub fn untag(tree: &Json) -> (r: Option<(&String, &Json)>)
    ensures
        r is Some <==> tag_of(tree@) is Some,
        r matches Some((name, body)) ==> tag_of(tree@) == Some((name@, body@)),
{
    match tree {
        Json::Object(members) => {
            proof {
                Json::lemma_object_view(*members);
            }
            if members.len() == 1 {
                Some((&members[0].0, &members[0].1))
            } else {
                None
            }
        },
        _ => None,
    }
}

/// Whether a string is exactly the given text.
pub fn text_is(text: &String, wanted: &str) -> (b: bool)
    ensures
        b == (text@ == wanted@),
{
    let other = wanted.to_owned();
    *text == other
}

impl Json {
    /// Whether the document can be handed to the printer as it stands.
    pub fn is_canonical(&self) -> (b: bool)
        ensures
            b == canonical(self@),
        decreases self,
    {
        match self {
            Json::Decimal(_) => false,
            Json::Array(items) => {
                proof {
                    Json::lemma_array_view(*items);
                }
                let mut i: usize = 0;
                while i < items.len()
                    invariant
                        i <= items.len(),
                        self == Json::Array(*items),
                        forall|k: int| 0 <= k < i ==> canonical(#[trigger] items[k]@),
                    decreases items.len() - i,
                {
                    if !items[i].is_canonical() {
                        proof {
                            Json::lemma_array_view(*items);
                            assert(!canonical(self@->Array_0[i as int]));
                        }
                        return false;
                    }
                    i += 1;
                }
                proof {
                    Json::lemma_array_view(*items);
                }
                true
            },
            Json::Object(members) => {
                let mut i: usize = 0;
                while i < members.len()
                    invariant
                        i <= members.len(),
                        self == Json::Object(*members),
                        forall|k: int| 0 <= k < i ==> canonical((#[trigger] members[k]).1@),
                        forall|j: int, k: int|
                            0 <= j < k < i ==> (#[trigger] members[j]).0@ != (
                            #[trigger] members[k]).0@,
                    decreases members.len() - i,
                {
                    if !members[i].1.is_canonical() {
                        proof {
                            Json::lemma_object_view(*members);
                            assert(!canonical(self@->Object_0[i as int].1));
                        }
                        return false;
                    }
                    let mut j: usize = 0;
                    while j < i
                        invariant
                            j <= i,
                            i < members.len(),
                            self == Json::Object(*members),
                            forall|k: int|
                                0 <= k < j ==> (#[trigger] members[k]).0@ != members[i as int].0@,
                        decreases i - j,
                    {
                        if members[j].0 == members[i].0 {
                            proof {
                                Json::lemma_object_view(*members);
                                let all = self@->Object_0;
                                assert(all[j as int].0 == all[i as int].0);
                            }
                            return false;
                        }
                        j += 1;
                    }
                    i += 1;
                }
                proof {
                    Json::lemma_object_view(*members);
                    let all = self@->Object_0;
                    assert forall|k: int| 0 <= k < all.len() implies canonical(
                        (#[trigger] all[k]).1,
                    ) by {
                        assert(canonical(members[k].1@));
                    }
                    assert forall|j: int, k: int| 0 <= j < k < all.len() implies (
                    #[trigger] all[j]).0 != (#[trigger] all[k]).0 by {
                        assert(members[j].0@ != members[k].0@);
                    }
                }
                true
            },
            _ => true,
        }
    }

    /// Prints the document in compact form, if it can be printed as it
    /// stands.
    pub fn try_print(&self) -> (text: Option<String>)
        ensures
            text is Some <==> canonical(self@),
            text matches Some(printed) ==> printed@ == printed_json(self@),
    {
        if self.is_canonical() {
            Some(self.print())
        } else {
            None
        }
    }
}

} // verus!
