//! Render models of form controls, the convention that names them, and the
//! helpers that fill them from the current and the baseline state.
use vstd::prelude::*;

use crate::data::{holds_list, named, with_item, FooMapBuilder, TemplateData};
use crate::ids::{get_sid, short_id_of};
use crate::text::{owned, signed_decimal, signed_text, starts_with, tail_from};

verus! {

broadcast use vstd::string::group_string_axioms;

/// A value that a form control can show and a template can read.
pub trait FieldValue: View + Sized {
    /// The text a control shows for the value.
    spec fn shown(v: Self::V) -> Seq<char>;

    fn same_value(&self, other: &Self) -> (r: bool)
        ensures
            r == (self@ == other@);

    fn copy_value(&self) -> (r: Self)
        ensures
            r@ == self@;

    fn display_text(&self) -> (r: String)
        ensures
            r@ == Self::shown(self@);

    /// The value as a template reads it.
    spec fn data(&self) -> TemplateData;

    fn to_data(&self) -> (r: TemplateData)
        ensures
            r == self.data();
}

impl FieldValue for i32 {
    open spec fn data(&self) -> TemplateData {
        TemplateData::Int(*self as i64)
    }

    open spec fn shown(v: i32) -> Seq<char> {
        signed_decimal(v as int)
    }

    fn same_value(&self, other: &i32) -> (r: bool) {
        *self == *other
    }

    fn copy_value(&self) -> (r: i32) {
        *self
    }

    fn display_text(&self) -> (r: String) {
        signed_text(*self as i64)
    }

    fn to_data(&self) -> (r: TemplateData) {
        TemplateData::Int(*self as i64)
    }
}

impl FieldValue for i64 {
    open spec fn data(&self) -> TemplateData {
        TemplateData::Int(*self)
    }

    open spec fn shown(v: i64) -> Seq<char> {
        signed_decimal(v as int)
    }

    fn same_value(&self, other: &i64) -> (r: bool) {
        *self == *other
    }

    fn copy_value(&self) -> (r: i64) {
        *self
    }

    fn display_text(&self) -> (r: String) {
        signed_text(*self)
    }

    fn to_data(&self) -> (r: TemplateData) {
        TemplateData::Int(*self)
    }
}

impl FieldValue for String {
    open spec fn data(&self) -> TemplateData {
        TemplateData::Text(*self)
    }

    open spec fn shown(v: Seq<char>) -> Seq<char> {
        v
    }

    fn same_value(&self, other: &String) -> (r: bool) {
        *self == *other
    }

    fn copy_value(&self) -> (r: String) {
        self.clone()
    }

    fn display_text(&self) -> (r: String) {
        self.clone()
    }

    fn to_data(&self) -> (r: TemplateData) {
        TemplateData::Text(self.clone())
    }
}

fn named_field(name: &str, value: TemplateData) -> (r: (String, TemplateData))
    ensures
        r.0@ == name@,
        r.1 == value,
{
    (owned(name), value)
}

/// A text input.
#[derive(Debug)]
pub struct HtmlText {
    pub id: String,
    pub value: String,
    pub labeltext: String,
    pub highlight: bool,
    pub hidden: bool,
    pub disabled: bool,
}

/// A button.
#[derive(Debug)]
pub struct HtmlButton {
    pub id: String,
    pub value: String,
    pub labeltext: String,
    pub highlight: bool,
    pub hidden: bool,
    pub disabled: bool,
}

/// A checkbox.
#[derive(Debug)]
pub struct HtmlCheck {
    pub id: String,
    pub labeltext: String,
    pub checked: bool,
    pub highlight: bool,
    pub hidden: bool,
    pub disabled: bool,
}

/// One option of a dropdown.
#[derive(Debug)]
pub struct HtmlSelectItem<T> {
    pub i: usize,
    pub user_label: String,
    pub value: T,
    pub selected: bool,
}

/// A dropdown: its options in order and the value bound to it.
#[derive(Debug)]
pub struct HtmlSelect<T> {
    pub id: String,
    pub items: Vec<HtmlSelectItem<T>>,
    pub selected_value: T,
    pub highlight: bool,
    pub hidden: bool,
    pub disabled: bool,
}

/// The fields of a text input as a template reads them.
pub open spec fn text_fields(h: HtmlText) -> Seq<(Seq<char>, TemplateData)> {
    seq![
        ("id"@, TemplateData::Text(h.id)),
        ("value"@, TemplateData::Text(h.value)),
        ("labeltext"@, TemplateData::Text(h.labeltext)),
        ("highlight"@, TemplateData::Bool(h.highlight)),
        ("hidden"@, TemplateData::Bool(h.hidden)),
        ("disabled"@, TemplateData::Bool(h.disabled)),
    ]
}

/// The fields of a button as a template reads them.
pub open spec fn button_fields(h: HtmlButton) -> Seq<(Seq<char>, TemplateData)> {
    seq![
        ("id"@, TemplateData::Text(h.id)),
        ("value"@, TemplateData::Text(h.value)),
        ("labeltext"@, TemplateData::Text(h.labeltext)),
        ("highlight"@, TemplateData::Bool(h.highlight)),
        ("hidden"@, TemplateData::Bool(h.hidden)),
        ("disabled"@, TemplateData::Bool(h.disabled)),
    ]
}

/// The fields of a checkbox as a template reads them.
pub open spec fn check_fields(h: HtmlCheck) -> Seq<(Seq<char>, TemplateData)> {
    seq![
        ("id"@, TemplateData::Text(h.id)),
        ("labeltext"@, TemplateData::Text(h.labeltext)),
        ("checked"@, TemplateData::Bool(h.checked)),
        ("highlight"@, TemplateData::Bool(h.highlight)),
        ("hidden"@, TemplateData::Bool(h.hidden)),
        ("disabled"@, TemplateData::Bool(h.disabled)),
    ]
}

/// Whether `d` holds exactly the fields `fields`.
pub open spec fn has_fields(d: TemplateData, fields: Seq<(Seq<char>, TemplateData)>) -> bool {
    d is Fields && named(d->Fields_0@) == fields
}

impl HtmlText {
    /// The fields of the control as a template reads them.
    pub fn to_data(&self) -> (r: TemplateData)
        ensures
            has_fields(r, text_fields(*self)),
    {
        let mut v: Vec<(String, TemplateData)> = Vec::new();
        v.push(named_field("id", TemplateData::Text(self.id.clone())));
        v.push(named_field("value", TemplateData::Text(self.value.clone())));
        v.push(named_field("labeltext", TemplateData::Text(self.labeltext.clone())));
        v.push(named_field("highlight", TemplateData::Bool(self.highlight)));
        v.push(named_field("hidden", TemplateData::Bool(self.hidden)));
        v.push(named_field("disabled", TemplateData::Bool(self.disabled)));
        assert(named(v@) =~= seq![
            ("id"@, TemplateData::Text(self.id)),
            ("value"@, TemplateData::Text(self.value)),
            ("labeltext"@, TemplateData::Text(self.labeltext)),
            ("highlight"@, TemplateData::Bool(self.highlight)),
            ("hidden"@, TemplateData::Bool(self.hidden)),
            ("disabled"@, TemplateData::Bool(self.disabled)),
        ]);
        TemplateData::Fields(v)
    }
}

impl HtmlButton {
    /// The fields of the control as a template reads them.
    pub fn to_data(&self) -> (r: TemplateData)
        ensures
            has_fields(r, button_fields(*self)),
    {
        let mut v: Vec<(String, TemplateData)> = Vec::new();
        v.push(named_field("id", TemplateData::Text(self.id.clone())));
        v.push(named_field("value", TemplateData::Text(self.value.clone())));
        v.push(named_field("labeltext", TemplateData::Text(self.labeltext.clone())));
        v.push(named_field("highlight", TemplateData::Bool(self.highlight)));
        v.push(named_field("hidden", TemplateData::Bool(self.hidden)));
        v.push(named_field("disabled", TemplateData::Bool(self.disabled)));
        assert(named(v@) =~= seq![
            ("id"@, TemplateData::Text(self.id)),
            ("value"@, TemplateData::Text(self.value)),
            ("labeltext"@, TemplateData::Text(self.labeltext)),
            ("highlight"@, TemplateData::Bool(self.highlight)),
            ("hidden"@, TemplateData::Bool(self.hidden)),
            ("disabled"@, TemplateData::Bool(self.disabled)),
        ]);
        TemplateData::Fields(v)
    }
}

impl HtmlCheck {
    /// The fields of the control as a template reads them.
    pub fn to_data(&self) -> (r: TemplateData)
        ensures
            has_fields(r, check_fields(*self)),
    {
        let mut v: Vec<(String, TemplateData)> = Vec::new();
        v.push(named_field("id", TemplateData::Text(self.id.clone())));
        v.push(named_field("labeltext", TemplateData::Text(self.labeltext.clone())));
        v.push(named_field("checked", TemplateData::Bool(self.checked)));
        v.push(named_field("highlight", TemplateData::Bool(self.highlight)));
        v.push(named_field("hidden", TemplateData::Bool(self.hidden)));
        v.push(named_field("disabled", TemplateData::Bool(self.disabled)));
        assert(named(v@) =~= seq![
            ("id"@, TemplateData::Text(self.id)),
            ("labeltext"@, TemplateData::Text(self.labeltext)),
            ("checked"@, TemplateData::Bool(self.checked)),
            ("highlight"@, TemplateData::Bool(self.highlight)),
            ("hidden"@, TemplateData::Bool(self.hidden)),
            ("disabled"@, TemplateData::Bool(self.disabled)),
        ]);
        TemplateData::Fields(v)
    }
}

/// The fields of a dropdown option as a template reads them.
pub open spec fn item_fields<T: FieldValue>(it: HtmlSelectItem<T>) -> Seq<(Seq<char>, TemplateData)> {
    seq![
        ("i"@, TemplateData::Int(it.i as i64)),
        ("user_label"@, TemplateData::Text(it.user_label)),
        ("value"@, it.value.data()),
        ("selected"@, TemplateData::Bool(it.selected)),
    ]
}

impl<T: FieldValue> HtmlSelectItem<T> {
    /// The fields of the option as a template reads them.
    pub fn to_data(&self) -> (r: TemplateData)
        ensures
            r is Fields,
            named(r->Fields_0@) == item_fields(*self),
    {
        let mut v: Vec<(String, TemplateData)> = Vec::new();
        v.push(named_field("i", TemplateData::Int(self.i as i64)));
        v.push(named_field("user_label", TemplateData::Text(self.user_label.clone())));
        v.push(named_field("value", self.value.to_data()));
        v.push(named_field("selected", TemplateData::Bool(self.selected)));
        assert(named(v@) =~= item_fields(*self));
        TemplateData::Fields(v)
    }
}

/// Whether `r` is a dropdown as a template reads it: its id, the list of
/// its options, the bound value and its flags.
pub open spec fn select_describes<T: FieldValue>(r: TemplateData, s: HtmlSelect<T>) -> bool {
    &&& r is Fields
    &&& named(r->Fields_0@).len() == 6
    &&& named(r->Fields_0@)[0] == ("id"@, TemplateData::Text(s.id))
    &&& named(r->Fields_0@)[1].0 == "items"@
    &&& named(r->Fields_0@)[1].1 is List
    &&& named(r->Fields_0@)[1].1->List_0@.len() == s.items@.len()
    &&& forall|k: int| 0 <= k < s.items@.len() ==> (#[trigger] named(r->Fields_0@)[1].1->List_0@[k]) is Fields
        && named(named(r->Fields_0@)[1].1->List_0@[k]->Fields_0@) == item_fields(s.items@[k])
    &&& named(r->Fields_0@)[2] == ("selected_value"@, s.selected_value.data())
    &&& named(r->Fields_0@)[3] == ("highlight"@, TemplateData::Bool(s.highlight))
    &&& named(r->Fields_0@)[4] == ("hidden"@, TemplateData::Bool(s.hidden))
    &&& named(r->Fields_0@)[5] == ("disabled"@, TemplateData::Bool(s.disabled))
}

/// Whether some option of `items` carries the value `v`.
pub open spec fn offers<T: FieldValue>(items: Seq<HtmlSelectItem<T>>, v: T::V) -> bool {
    exists|k: int| 0 <= k < items.len() && (#[trigger] items[k]).value@ == v
}

impl<T: FieldValue> HtmlSelect<T> {
    /// A dropdown without options, bound to `selected_value`.
    pub fn new(selected_value: T) -> (r: HtmlSelect<T>)
        ensures
            r.items@.len() == 0,
            r.selected_value == selected_value,
            r.id@.len() == 0,
            !r.highlight,
            !r.hidden,
            !r.disabled,
    {
        HtmlSelect {
            id: String::new(),
            items: Vec::new(),
            selected_value,
            highlight: false,
            hidden: false,
            disabled: false,
        }
    }

    /// Appends an option, numbered by its position and not selected.
    pub fn item(&mut self, user_label: &str, value: T)
        requires
            old(self).items@.len() < usize::MAX,
        ensures
            final(self).items@.len() == old(self).items@.len() + 1,
            forall|k: int| 0 <= k < old(self).items@.len() ==> #[trigger] final(self).items@[k] == old(self).items@[k],
            final(self).items@.last().i == old(self).items@.len(),
            final(self).items@.last().user_label@ == user_label@,
            final(self).items@.last().value == value,
            !final(self).items@.last().selected,
            final(self).id == old(self).id,
            final(self).selected_value == old(self).selected_value,
            final(self).highlight == old(self).highlight,
    {
        let i = HtmlSelectItem::<T> {
            user_label: owned(user_label),
            value,
            selected: false,
            i: self.items.len(),
        };
        self.items.push(i);
    }

    /// Marks the option that carries the bound value as selected. Where no
    /// option carries it, the first option is selected and the bound value
    /// becomes that option's value; without options nothing changes.
    pub fn set_selected_value(&mut self, selected_value: &mut T)
        ensures
            final(self).items@.len() == old(self).items@.len(),
            final(self).id == old(self).id,
            final(self).highlight == old(self).highlight,
            final(self).hidden == old(self).hidden,
            final(self).disabled == old(self).disabled,
            old(self).items@.len() == 0 ==> final(self).items@ == old(self).items@,
            forall|k: int| 0 <= k < old(self).items@.len() ==> {
                &&& (#[trigger] final(self).items@[k]).i == old(self).items@[k].i
                &&& final(self).items@[k].user_label == old(self).items@[k].user_label
                &&& final(self).items@[k].value == old(self).items@[k].value
            },
            offers(old(self).items@, old(selected_value)@) ==> {
                &&& final(selected_value)@ == old(selected_value)@
                &&& final(self).selected_value@ == old(selected_value)@
                &&& forall|k: int| 0 <= k < old(self).items@.len() ==> (#[trigger] final(self).items@[k]).selected == (old(self).items@[k].value@ == old(selected_value)@)
            },
            !offers(old(self).items@, old(selected_value)@) && old(self).items@.len() > 0 ==> {
                &&& final(selected_value)@ == old(self).items@[0].value@
                &&& final(self).selected_value@ == old(self).items@[0].value@
                &&& forall|k: int| 0 <= k < old(self).items@.len() ==> (#[trigger] final(self).items@[k]).selected == (k == 0)
            },
            old(self).items@.len() == 0 ==> *final(selected_value) == *old(selected_value) && final(self).selected_value == old(self).selected_value,
    {
        let ghost items0 = self.items@;
        let ghost sv = selected_value@;
        let mut found = false;
        let n = self.items.len();
        let mut k: usize = 0;
        while k < n
            invariant
                n == self.items@.len(),
                n == items0.len(),
                k <= n,
                sv == selected_value@,
                self.id == old(self).id,
                self.highlight == old(self).highlight,
                self.hidden == old(self).hidden,
                self.disabled == old(self).disabled,
                n == 0 ==> self.items@ == items0,
                forall|j: int| 0 <= j < n ==> {
                    &&& (#[trigger] self.items@[j]).i == items0[j].i
                    &&& self.items@[j].user_label == items0[j].user_label
                    &&& self.items@[j].value == items0[j].value
                },
                forall|j: int| k <= j < n ==> (#[trigger] self.items@[j]).selected == items0[j].selected,
                forall|j: int| 0 <= j < k ==> (#[trigger] self.items@[j]).selected == (items0[j].value@ == sv),
                found == exists|j: int| 0 <= j < k && (#[trigger] items0[j]).value@ == sv,
                found ==> self.selected_value@ == sv,
                !found ==> self.selected_value == old(self).selected_value,
            decreases n - k,
        {
            let hit = self.items[k].value.same_value(selected_value);
            self.items[k].selected = hit;
            if hit {
                found = true;
                self.selected_value = selected_value.copy_value();
            }
            k += 1;
        }
        if !found {
            if n > 0 {
                self.items[0].selected = true;
                *selected_value = self.items[0].value.copy_value();
                self.selected_value = self.items[0].value.copy_value();
                assert forall|j: int| 0 <= j < n implies (#[trigger] self.items@[j]).selected == (j == 0) by {
                    if j > 0 {
                        assert(items0[j].value@ != sv);
                    }
                }
            }
        }
    }

    /// The dropdown as a template reads it: its id, the list of its options,
    /// the bound value and its flags.
    pub fn to_data(&self) -> (r: TemplateData)
        ensures
            select_describes(r, *self),
    {
        let mut items: Vec<TemplateData> = Vec::new();
        let n = self.items.len();
        let mut k: usize = 0;
        while k < n
            invariant
                n == self.items@.len(),
                k <= n,
                items@.len() == k,
                forall|j: int| 0 <= j < k ==> (#[trigger] items@[j]) is Fields && named(items@[j]->Fields_0@) == item_fields(self.items@[j]),
            decreases n - k,
        {
            items.push(self.items[k].to_data());
            k += 1;
        }
        let mut v: Vec<(String, TemplateData)> = Vec::new();
        v.push(named_field("id", TemplateData::Text(self.id.clone())));
        v.push(named_field("items", TemplateData::List(items)));
        v.push(named_field("selected_value", self.selected_value.to_data()));
        v.push(named_field("highlight", TemplateData::Bool(self.highlight)));
        v.push(named_field("hidden", TemplateData::Bool(self.hidden)));
        v.push(named_field("disabled", TemplateData::Bool(self.disabled)));
        TemplateData::Fields(v)
    }
}

impl HtmlSelect<String> {
    /// Appends an option whose value is its label.
    pub fn item1(&mut self, user_label: &str)
        requires
            old(self).items@.len() < usize::MAX,
        ensures
            final(self).items@.len() == old(self).items@.len() + 1,
            forall|k: int| 0 <= k < old(self).items@.len() ==> #[trigger] final(self).items@[k] == old(self).items@[k],
            final(self).items@.last().i == old(self).items@.len(),
            final(self).items@.last().user_label@ == user_label@,
            final(self).items@.last().value@ == user_label@,
            !final(self).items@.last().selected,
    {
        let i = HtmlSelectItem::<String> {
            i: self.items.len(),
            user_label: owned(user_label),
            value: owned(user_label),
            selected: false,
        };
        self.items.push(i);
    }
}

/// The kind of control a state field stands for, by the prefix of its name.
#[derive(Debug, PartialEq, Eq, Structural)]
pub enum ControlKind {
    Text,
    Dropdown,
    Checkbox,
    Radio,
    Button,
    Plain,
}

pub open spec fn control_kind_of(name: Seq<char>) -> ControlKind {
    if seq!['t', 'x', 't'].is_prefix_of(name) {
        ControlKind::Text
    } else if seq!['d', 'd'].is_prefix_of(name) {
        ControlKind::Dropdown
    } else if seq!['c', 'b'].is_prefix_of(name) {
        ControlKind::Checkbox
    } else if seq!['r', 'b'].is_prefix_of(name) {
        ControlKind::Radio
    } else if seq!['b', 't', 'n'].is_prefix_of(name) {
        ControlKind::Button
    } else {
        ControlKind::Plain
    }
}

/// The control a state field stands for: `txt` a text input, `dd` a
/// dropdown, `cb` a checkbox, `rb` a radio group, `btn` a button; any other
/// field is plain data.
pub fn control_kind(field_name: &str) -> (r: ControlKind)
    ensures
        r == control_kind_of(field_name@),
{
    proof {
        reveal_strlit("txt");
        reveal_strlit("dd");
        reveal_strlit("cb");
        reveal_strlit("rb");
        reveal_strlit("btn");
        assert("txt"@ =~= seq!['t', 'x', 't']);
        assert("dd"@ =~= seq!['d', 'd']);
        assert("cb"@ =~= seq!['c', 'b']);
        assert("rb"@ =~= seq!['r', 'b']);
        assert("btn"@ =~= seq!['b', 't', 'n']);
    }
    if starts_with(field_name, "txt") {
        ControlKind::Text
    } else if starts_with(field_name, "dd") {
        ControlKind::Dropdown
    } else if starts_with(field_name, "cb") {
        ControlKind::Checkbox
    } else if starts_with(field_name, "rb") {
        ControlKind::Radio
    } else if starts_with(field_name, "btn") {
        ControlKind::Button
    } else {
        ControlKind::Plain
    }
}

/// The label of the button a `btn` field stands for: its name without the
/// prefix.
pub fn button_label(field_name: &str) -> (r: String)
    ensures
        seq!['b', 't', 'n'].is_prefix_of(field_name@) ==> r@ == field_name@.skip(3),
        !seq!['b', 't', 'n'].is_prefix_of(field_name@) ==> r@ == field_name@,
{
    proof {
        reveal_strlit("btn");
        assert("btn"@ =~= seq!['b', 't', 'n']);
    }
    if starts_with(field_name, "btn") {
        tail_from(field_name, 3)
    } else {
        owned(field_name)
    }
}

/// Adds a text input for the state field `name`: it shows the current
/// value and is highlighted where that differs from the baseline. The
/// page-level `modified` flag takes up the highlight.
pub fn rsp10_text<V: FieldValue>(gd: &mut FooMapBuilder, name: &str, current: &V, initial: &V, modified: &mut bool) -> (r: HtmlText)
    ensures
        r.highlight == (current@ != initial@),
        r.value@ == V::shown(current@),
        r.id@ == name@,
        r.labeltext@.len() == 0 && !r.hidden && !r.disabled,
        *final(modified) == (*old(modified) || r.highlight),
        holds_list(old(gd).entries(), name@) ==> final(gd).entries() == old(gd).entries(),
        !holds_list(old(gd).entries(), name@) ==> exists|d: TemplateData|
            has_fields(d, text_fields(r)) && final(gd).entries() == #[trigger] with_item(old(gd).entries(), name@, d),
{
    let highlight = !current.same_value(initial);
    let elt = HtmlText {
        id: owned(name),
        value: current.display_text(),
        labeltext: String::new(),
        highlight,
        hidden: false,
        disabled: false,
    };
    *modified = *modified || elt.highlight;
    let d = elt.to_data();
    let ghost dg = d;
    let _ = gd.item(name, d);
    assert(!holds_list(old(gd).entries(), name@) ==> final(gd).entries() == with_item(old(gd).entries(), name@, dg));
    elt
}

/// Adds a checkbox for the boolean state field `name`, ticked as the
/// current value is and highlighted where it differs from the baseline.
pub fn rsp10_check(gd: &mut FooMapBuilder, name: &str, current: bool, initial: bool, modified: &mut bool) -> (r: HtmlCheck)
    ensures
        r.highlight == (current != initial),
        r.checked == current,
        r.id@ == name@,
        r.labeltext@.len() == 0 && !r.hidden && !r.disabled,
        *final(modified) == (*old(modified) || r.highlight),
        holds_list(old(gd).entries(), name@) ==> final(gd).entries() == old(gd).entries(),
        !holds_list(old(gd).entries(), name@) ==> exists|d: TemplateData|
            has_fields(d, check_fields(r)) && final(gd).entries() == #[trigger] with_item(old(gd).entries(), name@, d),
{
    let elt = HtmlCheck {
        id: owned(name),
        labeltext: String::new(),
        checked: current,
        highlight: current != initial,
        hidden: false,
        disabled: false,
    };
    *modified = *modified || elt.highlight;
    let d = elt.to_data();
    let ghost dg = d;
    let _ = gd.item(name, d);
    assert(!holds_list(old(gd).entries(), name@) ==> final(gd).entries() == with_item(old(gd).entries(), name@, dg));
    elt
}

/// Adds a dropdown for the state field `name` from the options `from`: the
/// bound value is resolved against the options (see `set_selected_value`),
/// and the control is highlighted where the resolved value differs from the
/// baseline.
pub fn rsp10_select<V: FieldValue>(gd: &mut FooMapBuilder, name: &str, from: HtmlSelect<V>, current: &mut V, initial: &V, modified: &mut bool) -> (r: HtmlSelect<V>)
    ensures
        offers(from.items@, old(current)@) ==> final(current)@ == old(current)@,
        !offers(from.items@, old(current)@) && from.items@.len() > 0 ==> final(current)@ == from.items@[0].value@,
        from.items@.len() == 0 ==> *final(current) == *old(current),
        r.highlight == (final(current)@ != initial@),
        r.id@ == name@,
        r.items@.len() == from.items@.len(),
        r.hidden == from.hidden && r.disabled == from.disabled,
        forall|k: int| 0 <= k < from.items@.len() ==> {
            &&& (#[trigger] r.items@[k]).i == from.items@[k].i
            &&& r.items@[k].user_label == from.items@[k].user_label
            &&& r.items@[k].value == from.items@[k].value
        },
        offers(from.items@, old(current)@) ==> r.selected_value@ == old(current)@
            && forall|k: int| 0 <= k < from.items@.len() ==> (#[trigger] r.items@[k]).selected == (from.items@[k].value@ == old(current)@),
        !offers(from.items@, old(current)@) && from.items@.len() > 0 ==> r.selected_value@ == from.items@[0].value@
            && forall|k: int| 0 <= k < from.items@.len() ==> (#[trigger] r.items@[k]).selected == (k == 0),
        from.items@.len() == 0 ==> r.selected_value == from.selected_value,
        *final(modified) == (*old(modified) || r.highlight),
        holds_list(old(gd).entries(), name@) ==> final(gd).entries() == old(gd).entries(),
        !holds_list(old(gd).entries(), name@) ==> exists|d: TemplateData|
            select_describes(d, r) && final(gd).entries() == #[trigger] with_item(old(gd).entries(), name@, d),
{
    let mut elt = from;
    elt.set_selected_value(current);
    elt.highlight = !current.same_value(initial);
    elt.id = owned(name);
    *modified = *modified || elt.highlight;
    let d = elt.to_data();
    let ghost dg = d;
    let _ = gd.item(name, d);
    assert(!holds_list(old(gd).entries(), name@) ==> final(gd).entries() == with_item(old(gd).entries(), name@, dg));
    elt
}

/// Records under `modified` whether any field differs from its baseline,
/// as the field helpers gathered it.
pub fn rsp10_modified(gd: &mut FooMapBuilder, modified: bool) -> (r: bool)
    ensures
        r == !holds_list(old(gd).entries(), "modified"@),
        !r ==> final(gd).entries() == old(gd).entries(),
        r ==> final(gd).entries() == with_item(old(gd).entries(), "modified"@, TemplateData::Bool(modified)),
{
    gd.insert("modified", TemplateData::Bool(modified))
}

/// Adds a button for the field `name` with the label `label`; a button is
/// never highlighted.
pub fn rsp10_button(gd: &mut FooMapBuilder, name: &str, label: &str) -> (r: HtmlButton)
    ensures
        r.id@ == name@,
        r.value@ == label@,
        !r.highlight,
        r.labeltext@.len() == 0 && !r.hidden && !r.disabled,
        holds_list(old(gd).entries(), name@) ==> final(gd).entries() == old(gd).entries(),
        !holds_list(old(gd).entries(), name@) ==> exists|d: TemplateData|
            has_fields(d, button_fields(r)) && final(gd).entries() == #[trigger] with_item(old(gd).entries(), name@, d),
{
    let elt = HtmlButton {
        id: owned(name),
        value: owned(label),
        labeltext: String::new(),
        highlight: false,
        hidden: false,
        disabled: false,
    };
    let d = elt.to_data();
    let ghost dg = d;
    let _ = gd.item(name, d);
    assert(!holds_list(old(gd).entries(), name@) ==> final(gd).entries() == with_item(old(gd).entries(), name@, dg));
    elt
}

/// A control that a form renders under its short id (see `get_sid`).
pub trait HtmlInput {
    /// The control's full id.
    spec fn spec_input_id(&self) -> Seq<char>;

    /// Whether `d` is the control's fields as a template reads them.
    spec fn rendered_by(&self, d: TemplateData) -> bool;

    /// The control's full id.
    fn input_id(&self) -> (r: String)
        ensures
            r@ == self.spec_input_id();

    /// The control's fields as a template reads them.
    fn input_data(&self) -> (r: TemplateData)
        ensures
            self.rendered_by(r);
}

impl HtmlInput for HtmlText {
    open spec fn spec_input_id(&self) -> Seq<char> {
        self.id@
    }

    open spec fn rendered_by(&self, d: TemplateData) -> bool {
        has_fields(d, text_fields(*self))
    }

    fn input_id(&self) -> (r: String) {
        self.id.clone()
    }

    fn input_data(&self) -> (r: TemplateData) {
        self.to_data()
    }
}

impl HtmlInput for HtmlButton {
    open spec fn spec_input_id(&self) -> Seq<char> {
        self.id@
    }

    open spec fn rendered_by(&self, d: TemplateData) -> bool {
        has_fields(d, button_fields(*self))
    }

    fn input_id(&self) -> (r: String) {
        self.id.clone()
    }

    fn input_data(&self) -> (r: TemplateData) {
        self.to_data()
    }
}

impl HtmlInput for HtmlCheck {
    open spec fn spec_input_id(&self) -> Seq<char> {
        self.id@
    }

    open spec fn rendered_by(&self, d: TemplateData) -> bool {
        has_fields(d, check_fields(*self))
    }

    fn input_id(&self) -> (r: String) {
        self.id.clone()
    }

    fn input_data(&self) -> (r: TemplateData) {
        self.to_data()
    }
}

impl<T: FieldValue> HtmlInput for HtmlSelect<T> {
    open spec fn spec_input_id(&self) -> Seq<char> {
        self.id@
    }

    open spec fn rendered_by(&self, d: TemplateData) -> bool {
        select_describes(d, *self)
    }

    fn input_id(&self) -> (r: String) {
        self.id.clone()
    }

    fn input_data(&self) -> (r: TemplateData) {
        self.to_data()
    }
}

/// The fields of a form's controls, each under its short id, in order;
/// controls without a short id are left out.
pub open spec fn rendered(controls: Seq<(Seq<char>, TemplateData)>) -> Seq<(Seq<char>, TemplateData)>
    decreases controls.len(),
{
    if controls.len() == 0 {
        Seq::empty()
    } else {
        let earlier = rendered(controls.drop_last());
        match short_id_of(controls.last().0) {
            Some(sid) => earlier.push((sid, controls.last().1)),
            None => earlier,
        }
    }
}

/// The controls of one form, as they stood when they were added.
pub struct HtmlForm {
    list: Vec<(String, TemplateData)>,
}

impl HtmlForm {
    /// The controls' ids with their fields, in the order they were added.
    pub closed spec fn controls(&self) -> Seq<(Seq<char>, TemplateData)> {
        named(self.list@)
    }

    /// A form without controls.
    pub fn new() -> (r: HtmlForm)
        ensures
            r.controls().len() == 0,
    {
        HtmlForm { list: Vec::new() }
    }

    /// Adds a control, with its fields as they are now.
    pub fn push<S: HtmlInput>(&mut self, input: &S)
        ensures
            final(self).controls().len() == old(self).controls().len() + 1,
            final(self).controls().drop_last() == old(self).controls(),
            final(self).controls().last().0 == input.spec_input_id(),
            input.rendered_by(final(self).controls().last().1),
    {
        let ghost before = self.list@;
        self.list.push((input.input_id(), input.input_data()));
        assert(named(self.list@).drop_last() =~= named(before));
    }

    /// The form as a template reads it: each control's fields under its
    /// short id, in order; a control whose id has no short id is left out.
    pub fn build(self) -> (r: TemplateData)
        ensures
            r is Fields,
            named(r->Fields_0@) == rendered(self.controls()),
    {
        let ghost controls = self.controls();
        let mut list = self.list;
        let n = list.len();
        let mut fields: Vec<(String, TemplateData)> = Vec::new();
        let mut i: usize = 0;
        while i < n
            invariant
                n == list@.len(),
                n == controls.len(),
                i <= n,
                forall|k: int| i <= k < n ==> (#[trigger] list@[k]).0@ == controls[k].0 && list@[k].1 == controls[k].1,
                named(fields@) == rendered(controls.subrange(0, i as int)),
            decreases n - i,
        {
            let ghost before = fields@;
            let mut data = TemplateData::Null;
            std::mem::swap(&mut list[i].1, &mut data);
            let sid = get_sid(list[i].0.as_str());
            let ghost sub = controls.subrange(0, i + 1);
            assert(sub.drop_last() =~= controls.subrange(0, i as int));
            assert(sub.last() == controls[i as int]);
            match sid {
                Some(sid) => {
                    fields.push((sid, data));
                    assert(named(fields@) =~= named(before).push((short_id_of(controls[i as int].0)->0, controls[i as int].1)));
                },
                None => {},
            }
            i += 1;
        }
        assert(controls.subrange(0, n as int) =~= controls);
        TemplateData::Fields(fields)
    }
}

/// A named list of forms, each rendered as one map.
pub struct HtmlFormVector {
    pub name: String,
    pub forms: Vec<HtmlForm>,
}

impl HtmlFormVector {
    /// An empty list named `a_name`.
    pub fn new(a_name: &str) -> (r: HtmlFormVector)
        ensures
            r.name@ == a_name@,
            r.forms@.len() == 0,
    {
        HtmlFormVector { name: owned(a_name), forms: Vec::new() }
    }

    /// The list as template data, under its name: one map per form.
    pub fn build(self) -> (r: (String, TemplateData))
        ensures
            r.0@ == self.name@,
            r.1 is List,
            r.1->List_0@.len() == self.forms@.len(),
            forall|k: int| 0 <= k < self.forms@.len() ==> (#[trigger] r.1->List_0@[k]) is Fields
                && named(r.1->List_0@[k]->Fields_0@) == rendered(self.forms@[k].controls()),
    {
        let ghost forms = self.forms@;
        let n = self.forms.len();
        let mut rest = self.forms;
        let mut reversed: Vec<TemplateData> = Vec::new();
        while rest.len() > 0
            invariant
                rest@.len() + reversed@.len() == n,
                n == forms.len(),
                forall|k: int| 0 <= k < rest@.len() ==> #[trigger] rest@[k] == forms[k],
                forall|k: int| 0 <= k < reversed@.len() ==> (#[trigger] reversed@[k]) is Fields
                    && named(reversed@[k]->Fields_0@) == rendered(forms[n - 1 - k].controls()),
            decreases rest@.len(),
        {
            let form = rest.pop().unwrap();
            reversed.push(form.build());
        }
        let mut list: Vec<TemplateData> = Vec::new();
        while reversed.len() > 0
            invariant
                reversed@.len() + list@.len() == n,
                n == forms.len(),
                forall|k: int| 0 <= k < reversed@.len() ==> (#[trigger] reversed@[k]) is Fields
                    && named(reversed@[k]->Fields_0@) == rendered(forms[n - 1 - k].controls()),
                forall|k: int| 0 <= k < list@.len() ==> (#[trigger] list@[k]) is Fields
                    && named(list@[k]->Fields_0@) == rendered(forms[k].controls()),
            decreases reversed@.len(),
        {
            let d = reversed.pop().unwrap();
            list.push(d);
        }
        (self.name, TemplateData::List(list))
    }
}

} // verus!
