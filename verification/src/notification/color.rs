//! A colour.

use crate::json::{
    distinct_keys, holds_exactly, lemma_object_of_fields, object_of, Field, Json, JsonModel,
    JsonView, ObjectBuilder,
};
use vstd::prelude::*;

verus! {

/// A colour by its four components, each a JSON number.
#[derive(Debug, Clone)]
pub struct Color {
    pub red: serde_json::Number,
    pub green: serde_json::Number,
    pub blue: serde_json::Number,
    pub alpha: serde_json::Number,
}

/// The mathematical view of [`Color`].
pub struct ColorView {
    pub red: serde_json::Number,
    pub green: serde_json::Number,
    pub blue: serde_json::Number,
    pub alpha: serde_json::Number,
}

impl View for Color {
    type V = ColorView;

    open spec fn view(&self) -> ColorView {
        ColorView { red: self.red, green: self.green, blue: self.blue, alpha: self.alpha }
    }
}

/// A number as a field that is always present.
pub open spec fn number_field(key: Seq<char>, value: serde_json::Number) -> Field {
    (key, Some(JsonView::Number(value)))
}

impl ColorView {
    /// The fields in the order in which they are written. All four are
    /// always there.
    pub open spec fn fields(self) -> Seq<Field> {
        Seq::empty().push(number_field("red"@, self.red)).push(
            number_field("green"@, self.green),
        ).push(number_field("blue"@, self.blue)).push(number_field("alpha"@, self.alpha))
    }
}

impl JsonModel for ColorView {
    open spec fn json(self) -> JsonView {
        JsonView::Object(object_of(self.fields()))
    }
}

impl Color {
    /// The document that the colour is sent as.
    pub fn to_json(&self) -> (doc: Json)
        ensures
            doc@ == self@.json(),
    {
        let red = Json::Number(self.red.clone());
        let green = Json::Number(self.green.clone());
        let blue = Json::Number(self.blue.clone());
        let alpha = Json::Number(self.alpha.clone());
        ObjectBuilder::new().put("red", Some(red)).put("green", Some(green)).put(
            "blue",
            Some(blue),
        ).put("alpha", Some(alpha)).finish()
    }

    /// A copy of the colour.
    pub fn duplicate(&self) -> (copy: Self)
        ensures
            copy@ == self@,
    {
        Color {
            red: self.red.clone(),
            green: self.green.clone(),
            blue: self.blue.clone(),
            alpha: self.alpha.clone(),
        }
    }
}

/// A colour is sent as an object that holds exactly its present fields, each
/// under its own key; a field that is absent is left out.
pub proof fn lemma_color_json(record: ColorView)
    ensures
        distinct_keys(record.fields()),
        record.json() is Object,
        holds_exactly(record.json()->Object_0, record.fields()),
{
    reveal_strlit("red");
    reveal_strlit("green");
    reveal_strlit("blue");
    reveal_strlit("alpha");
    assert("red"@.len() == 3);
    assert("green"@.len() == 5);
    assert("blue"@.len() == 4);
    assert("alpha"@.len() == 5);
    assert("green"@[0] == 'g');
    assert("alpha"@[0] == 'a');
    assert(distinct_keys(record.fields()));
    lemma_object_of_fields(record.fields());
}

} // verus!
