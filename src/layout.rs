//! The layout: an ordered list of button records, read from JSON.

use crate::json::{
    json_node, json_of, json_value, members_view, parse_json, u64_of, values_view, JsonNode,
    JsonView,
};
use vstd::prelude::*;
use vstd::string::StringExecFns;

verus! {

/// A required member of a button record.
#[derive(Clone, Copy, Debug, PartialEq, Eq, Structural)]
pub enum RequiredField {
    Label,
    Action,
    Text,
}

#[derive(Clone, Copy, Debug, PartialEq, Eq, Structural)]
pub enum ConfigError {
    /// Not a list of button records, or a member of the wrong type.
    Malformed,
    /// A record lacks a required member.
    MissingField(RequiredField),
}

/// One button of the layout.
pub struct ButtonSpec {
    /// Name of the button, a lookup key.
    pub identifier: String,
    pub display_text: String,
    /// Symbolic name of the key that activates the button.
    pub keybind: Option<String>,
    /// Shell command run when the button is activated.
    pub action: String,
    /// Horizontal alignment of the label in `[0, 1]`; absent means centred.
    pub label_x_align: Option<serde_json::Number>,
    /// Vertical alignment of the label in `[0, 1]`; absent means near the bottom.
    pub label_y_align: Option<serde_json::Number>,
    /// Fixed width in device pixels; absent means the button fills its cell.
    pub width: Option<u32>,
    /// Fixed height in device pixels; absent means the button fills its cell.
    pub height: Option<u32>,
}

pub struct ButtonView {
    pub identifier: Seq<char>,
    pub display_text: Seq<char>,
    pub keybind: Option<Seq<char>>,
    pub action: Seq<char>,
    pub label_x_align: Option<serde_json::Number>,
    pub label_y_align: Option<serde_json::Number>,
    pub width: Option<u32>,
    pub height: Option<u32>,
}

impl View for ButtonSpec {
    type V = ButtonView;

    open spec fn view(&self) -> ButtonView {
        ButtonView {
            identifier: self.identifier@,
            display_text: self.display_text@,
            keybind: match self.keybind {
                Some(k) => Some(k@),
                None => None,
            },
            action: self.action@,
            label_x_align: self.label_x_align,
            label_y_align: self.label_y_align,
            width: self.width,
            height: self.height,
        }
    }
}

pub open spec fn string_view(s: Option<String>) -> Option<Seq<char>> {
    match s {
        Some(t) => Some(t@),
        None => None,
    }
}

/// The value of the first member of `members` named `key`.
pub open spec fn lookup(members: Seq<(Seq<char>, JsonView)>, key: Seq<char>) -> Option<JsonView>
    decreases members.len(),
{
    if members.len() == 0 {
        None
    } else {
        let prev = lookup(members.drop_last(), key);
        if prev is Some {
            prev
        } else if members.last().0 == key {
            Some(members.last().1)
        } else {
            None
        }
    }
}

/// A required text member: absent, or text.
pub open spec fn required_text_ok(f: Option<JsonView>) -> bool {
    match f {
        None => true,
        Some(JsonView::Text(_)) => true,
        _ => false,
    }
}

/// An optional text member: absent, null or text.
pub open spec fn optional_text_ok(f: Option<JsonView>) -> bool {
    match f {
        None => true,
        Some(JsonView::Null) => true,
        Some(JsonView::Text(_)) => true,
        _ => false,
    }
}

/// An optional number: absent, null or a number.
pub open spec fn optional_number_ok(f: Option<JsonView>) -> bool {
    match f {
        None => true,
        Some(JsonView::Null) => true,
        Some(JsonView::Number(_)) => true,
        _ => false,
    }
}

/// An optional size: absent, null, or an integer from `0` to `u32::MAX`.
pub open spec fn optional_size_ok(f: Option<JsonView>) -> bool {
    match f {
        None => true,
        Some(JsonView::Null) => true,
        Some(JsonView::Number(n)) => match u64_of(n) {
            Some(v) => v <= u32::MAX,
            None => false,
        },
        _ => false,
    }
}

pub open spec fn text_of(f: Option<JsonView>) -> Seq<char> {
    match f {
        Some(JsonView::Text(s)) => s,
        _ => Seq::empty(),
    }
}

pub open spec fn optional_text_of(f: Option<JsonView>) -> Option<Seq<char>> {
    match f {
        Some(JsonView::Text(s)) => Some(s),
        _ => None,
    }
}

pub open spec fn number_of(f: Option<JsonView>) -> Option<serde_json::Number> {
    match f {
        Some(JsonView::Number(n)) => Some(n),
        _ => None,
    }
}

pub open spec fn size_of(f: Option<JsonView>) -> Option<u32> {
    match f {
        Some(JsonView::Number(n)) => match u64_of(n) {
            Some(v) => Some(v as u32),
            None => None,
        },
        _ => None,
    }
}

/// Every member the layout knows has the type it should.
pub open spec fn record_well_typed(m: Seq<(Seq<char>, JsonView)>) -> bool {
    &&& required_text_ok(lookup(m, "label"@))
    &&& required_text_ok(lookup(m, "action"@))
    &&& required_text_ok(lookup(m, "text"@))
    &&& optional_text_ok(lookup(m, "keybind"@))
    &&& optional_number_ok(lookup(m, "label_x_align"@))
    &&& optional_number_ok(lookup(m, "label_y_align"@))
    &&& optional_size_ok(lookup(m, "width"@))
    &&& optional_size_ok(lookup(m, "height"@))
}

/// The button a record describes. A member of the wrong type makes the record
/// malformed; otherwise the first absent one of `label`, `action` and `text`
/// is reported missing. Members the layout does not know are ignored.
pub open spec fn button_of(m: Seq<(Seq<char>, JsonView)>) -> Result<ButtonView, ConfigError> {
    if !record_well_typed(m) {
        Err(ConfigError::Malformed)
    } else if lookup(m, "label"@) is None {
        Err(ConfigError::MissingField(RequiredField::Label))
    } else if lookup(m, "action"@) is None {
        Err(ConfigError::MissingField(RequiredField::Action))
    } else if lookup(m, "text"@) is None {
        Err(ConfigError::MissingField(RequiredField::Text))
    } else {
        Ok(
            ButtonView {
                identifier: text_of(lookup(m, "label"@)),
                display_text: text_of(lookup(m, "text"@)),
                keybind: optional_text_of(lookup(m, "keybind"@)),
                action: text_of(lookup(m, "action"@)),
                label_x_align: number_of(lookup(m, "label_x_align"@)),
                label_y_align: number_of(lookup(m, "label_y_align"@)),
                width: size_of(lookup(m, "width"@)),
                height: size_of(lookup(m, "height"@)),
            },
        )
    }
}

/// The button one element of the layout list describes: elements that are
/// not objects are malformed.
pub open spec fn element_button(e: JsonView) -> Result<ButtonView, ConfigError> {
    match e {
        JsonView::Object(m) => button_of(m),
        _ => Err(ConfigError::Malformed),
    }
}

/// The layout that a list of elements describes: every button in order, or
/// the error of the first element that describes none.
pub open spec fn layout_of(elements: Seq<JsonView>) -> Result<Seq<ButtonView>, ConfigError>
    decreases elements.len(),
{
    if elements.len() == 0 {
        Ok(Seq::empty())
    } else {
        match layout_of(elements.drop_last()) {
            Err(e) => Err(e),
            Ok(prev) => match element_button(elements.last()) {
                Err(e) => Err(e),
                Ok(b) => Ok(prev.push(b)),
            },
        }
    }
}

/// The layout a document describes: it must be a list of button records;
/// no document at all (text that is not JSON) is malformed too.
pub open spec fn layout_of_json(doc: Option<JsonView>) -> Result<Seq<ButtonView>, ConfigError> {
    match doc {
        Some(JsonView::Array(elements)) => layout_of(elements),
        _ => Err(ConfigError::Malformed),
    }
}

pub open spec fn buttons_view(buttons: Seq<ButtonSpec>) -> Seq<ButtonView> {
    buttons.map_values(|b: ButtonSpec| b@)
}

pub open spec fn value_view(f: Option<&serde_json::Value>) -> Option<JsonView> {
    match f {
        Some(v) => Some(json_value(*v)),
        None => None,
    }
}

/// The first member of `members` named `key`.
fn find_member<'a>(members: &'a Vec<(String, serde_json::Value)>, key: &str) -> (r: Option<
    &'a serde_json::Value,
>)
    ensures
        value_view(r) == lookup(members_view(members@), key@),
{
    let ghost mv = members_view(members@);
    let wanted = key.to_owned();
    let mut found: Option<&'a serde_json::Value> = None;
    let mut i: usize = 0;
    while i < members.len()
        invariant
            i <= members@.len(),
            mv == members_view(members@),
            mv.len() == members@.len(),
            wanted@ == key@,
            value_view(found) == lookup(mv.take(i as int), key@),
        decreases members@.len() - i,
    {
        assert(mv.take(i as int + 1).drop_last() =~= mv.take(i as int));
        assert(mv[i as int] == (members@[i as int].0@, json_value(members@[i as int].1)));
        if found.is_none() && members[i].0 == wanted {
            found = Some(&members[i].1);
        }
        i = i + 1;
    }
    assert(mv.take(mv.len() as int) =~= mv);
    found
}

fn read_required_text(f: Option<&serde_json::Value>) -> (r: Result<Option<String>, ConfigError>)
    ensures
        r is Ok <==> required_text_ok(value_view(f)),
        r is Err ==> r == Err::<Option<String>, ConfigError>(ConfigError::Malformed),
        r matches Ok(o) ==> (o is Some <==> f is Some) && (o matches Some(s) ==> s@ == text_of(
            value_view(f),
        )),
{
    match f {
        None => Ok(None),
        Some(v) => match json_node(v) {
            JsonNode::Text(s) => Ok(Some(s)),
            _ => Err(ConfigError::Malformed),
        },
    }
}

fn read_optional_text(f: Option<&serde_json::Value>) -> (r: Result<Option<String>, ConfigError>)
    ensures
        r is Ok <==> optional_text_ok(value_view(f)),
        r is Err ==> r == Err::<Option<String>, ConfigError>(ConfigError::Malformed),
        r matches Ok(o) ==> string_view(o) == optional_text_of(value_view(f)),
{
    match f {
        None => Ok(None),
        Some(v) => match json_node(v) {
            JsonNode::Null => Ok(None),
            JsonNode::Text(s) => Ok(Some(s)),
            _ => Err(ConfigError::Malformed),
        },
    }
}

fn read_number(f: Option<&serde_json::Value>) -> (r: Result<Option<serde_json::Number>, ConfigError>)
    ensures
        r is Ok <==> optional_number_ok(value_view(f)),
        r is Err ==> r == Err::<Option<serde_json::Number>, ConfigError>(ConfigError::Malformed),
        r matches Ok(o) ==> o == number_of(value_view(f)),
{
    match f {
        None => Ok(None),
        Some(v) => match json_node(v) {
            JsonNode::Null => Ok(None),
            JsonNode::Number(n) => Ok(Some(n)),
            _ => Err(ConfigError::Malformed),
        },
    }
}

fn read_size(f: Option<&serde_json::Value>) -> (r: Result<Option<u32>, ConfigError>)
    ensures
        r is Ok <==> optional_size_ok(value_view(f)),
        r is Err ==> r == Err::<Option<u32>, ConfigError>(ConfigError::Malformed),
        r matches Ok(o) ==> o == size_of(value_view(f)),
{
    match f {
        None => Ok(None),
        Some(v) => match json_node(v) {
            JsonNode::Null => Ok(None),
            JsonNode::Number(n) => match n.as_u64() {
                Some(u) => {
                    if u <= u32::MAX as u64 {
                        Ok(Some(u as u32))
                    } else {
                        Err(ConfigError::Malformed)
                    }
                },
                None => Err(ConfigError::Malformed),
            },
            _ => Err(ConfigError::Malformed),
        },
    }
}

/// The button that the members of one record describe, or why they describe none.
pub fn button_from_members(members: &Vec<(String, serde_json::Value)>) -> (r: Result<
    ButtonSpec,
    ConfigError,
>)
    ensures
        match r {
            Ok(b) => button_of(members_view(members@)) == Ok::<ButtonView, ConfigError>(b@),
            Err(e) => button_of(members_view(members@)) == Err::<ButtonView, ConfigError>(e),
        },
{
    let label = read_required_text(find_member(members, "label"));
    let action = read_required_text(find_member(members, "action"));
    let text = read_required_text(find_member(members, "text"));
    let keybind = read_optional_text(find_member(members, "keybind"));
    let x_align = read_number(find_member(members, "label_x_align"));
    let y_align = read_number(find_member(members, "label_y_align"));
    let width = read_size(find_member(members, "width"));
    let height = read_size(find_member(members, "height"));
    match (label, action, text, keybind, x_align, y_align, width, height) {
        (Ok(label), Ok(action), Ok(text), Ok(keybind), Ok(x_align), Ok(y_align), Ok(width), Ok(height)) => {
            match (label, action, text) {
                (None, _, _) => Err(ConfigError::MissingField(RequiredField::Label)),
                (Some(_), None, _) => Err(ConfigError::MissingField(RequiredField::Action)),
                (Some(_), Some(_), None) => Err(ConfigError::MissingField(RequiredField::Text)),
                (Some(identifier), Some(action), Some(display_text)) => Ok(
                    ButtonSpec {
                        identifier,
                        display_text,
                        keybind,
                        action,
                        label_x_align: x_align,
                        label_y_align: y_align,
                        width,
                        height,
                    },
                ),
            }
        },
        _ => Err(ConfigError::Malformed),
    }
}

/// The button one element of the layout list describes.
fn button_from_element(e: &serde_json::Value) -> (r: Result<ButtonSpec, ConfigError>)
    ensures
        match r {
            Ok(b) => element_button(json_value(*e)) == Ok::<ButtonView, ConfigError>(b@),
            Err(x) => element_button(json_value(*e)) == Err::<ButtonView, ConfigError>(x),
        },
{
    match json_node(e) {
        JsonNode::Object(members) => button_from_members(&members),
        _ => Err(ConfigError::Malformed),
    }
}

proof fn lemma_layout_error_stays(elements: Seq<JsonView>, i: int)
    requires
        0 <= i <= elements.len(),
        layout_of(elements.take(i)) is Err,
    ensures
        layout_of(elements) == layout_of(elements.take(i)),
    decreases elements.len() - i,
{
    if i < elements.len() {
        assert(elements.take(i + 1).drop_last() =~= elements.take(i));
        lemma_layout_error_stays(elements, i + 1);
    } else {
        assert(elements.take(i) =~= elements);
    }
}

/// The buttons of a parsed layout document: a list of button records, read
/// in order; anything else, or the first element that describes no button,
/// decides the error.
pub fn layout_from_document(doc: &serde_json::Value) -> (r: Result<Vec<ButtonSpec>, ConfigError>)
    ensures
        match r {
            Ok(bs) => layout_of_json(Some(json_value(*doc))) == Ok::<Seq<ButtonView>, ConfigError>(
                buttons_view(bs@),
            ),
            Err(e) => layout_of_json(Some(json_value(*doc))) == Err::<Seq<ButtonView>, ConfigError>(
                e,
            ),
        },
{
    let items = match json_node(doc) {
        JsonNode::Array(items) => items,
        _ => return Err(ConfigError::Malformed),
    };
    let ghost ev = values_view(items@);
    assert(json_value(*doc) == JsonView::Array(ev));
    let mut buttons: Vec<ButtonSpec> = Vec::new();
    let mut i: usize = 0;
    assert(buttons_view(buttons@) =~= Seq::empty());
    assert(ev.take(0).len() == 0);
    while i < items.len()
        invariant
            i <= items@.len(),
            ev == values_view(items@),
            ev.len() == items@.len(),
            json_value(*doc) == JsonView::Array(ev),
            layout_of(ev.take(i as int)) == Ok::<Seq<ButtonView>, ConfigError>(
                buttons_view(buttons@),
            ),
        decreases items@.len() - i,
    {
        assert(ev.take(i as int + 1).drop_last() =~= ev.take(i as int));
        assert(ev[i as int] == json_value(items@[i as int]));
        match button_from_element(&items[i]) {
            Ok(b) => {
                let ghost before = buttons_view(buttons@);
                let ghost bv = b@;
                buttons.push(b);
                assert(buttons_view(buttons@) =~= before.push(bv));
            },
            Err(e) => {
                proof {
                    assert(ev.take(i as int + 1).last() == ev[i as int]);
                    assert(layout_of(ev.take(i as int + 1)) == Err::<Seq<ButtonView>, ConfigError>(e));
                    lemma_layout_error_stays(ev, i as int + 1);
                }
                return Err(e);
            },
        }
        i = i + 1;
    }
    assert(ev.take(ev.len() as int) =~= ev);
    Ok(buttons)
}

/// Reads a layout document. Text that is not JSON, or not a list of button
/// records, is malformed; otherwise the result is the layout its records
/// describe.
pub fn parse_layout(text: &str) -> (r: Result<Vec<ButtonSpec>, ConfigError>)
    ensures
        match r {
            Ok(bs) => layout_of_json(json_of(text@)) == Ok::<Seq<ButtonView>, ConfigError>(
                buttons_view(bs@),
            ),
            Err(e) => layout_of_json(json_of(text@)) == Err::<Seq<ButtonView>, ConfigError>(e),
        },
{
    match parse_json(text) {
        Ok(doc) => layout_from_document(&doc),
        Err(_) => Err(ConfigError::Malformed),
    }
}

/// The label shown on a button: its text, followed by its keybind in square
/// brackets when keybinds are shown and it has one.
pub open spec fn label_of(b: ButtonView, show_binds: bool) -> Seq<char> {
    match b.keybind {
        Some(k) => if show_binds {
            b.display_text + "["@ + k + "]"@
        } else {
            b.display_text
        },
        None => b.display_text,
    }
}

/// The size a button asks for on one axis: its own, else the default; none
/// means that it fills its cell.
pub open spec fn size_request(own: Option<u32>, default: Option<u32>) -> Option<u32> {
    match own {
        Some(v) => Some(v),
        None => default,
    }
}

impl ButtonSpec {
    pub fn label_text(&self, show_binds: bool) -> (r: String)
        ensures
            r@ == label_of(self@, show_binds),
    {
        let mut label = self.display_text.clone();
        if show_binds {
            if let Some(k) = &self.keybind {
                label.append("[");
                label.append(k.as_str());
                label.append("]");
            }
        }
        label
    }

    pub fn width_request(&self, default: Option<u32>) -> (r: Option<u32>)
        ensures
            r == size_request(self.width, default),
    {
        match self.width {
            Some(w) => Some(w),
            None => default,
        }
    }

    pub fn height_request(&self, default: Option<u32>) -> (r: Option<u32>)
        ensures
            r == size_request(self.height, default),
    {
        match self.height {
            Some(h) => Some(h),
            None => default,
        }
    }
}

} // verus!
