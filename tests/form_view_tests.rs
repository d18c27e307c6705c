use rsp10::data::TemplateData;
use rsp10::html::{HtmlButton, HtmlCheck, HtmlForm, HtmlFormVector};

fn check(id: &str, checked: bool) -> HtmlCheck {
    HtmlCheck {
        id: id.to_string(),
        labeltext: String::new(),
        checked,
        highlight: false,
        hidden: false,
        disabled: false,
    }
}

#[test]
fn form_renders_controls_under_short_ids() {
    let mut form = HtmlForm::new();
    form.push(&check("rows__0__cbDone", true));
    form.push(&check("rows__0", false));
    let button = HtmlButton {
        id: "btnSave".to_string(),
        value: "Save".to_string(),
        labeltext: String::new(),
        highlight: false,
        hidden: false,
        disabled: false,
    };
    form.push(&button);
    match form.build() {
        TemplateData::Fields(fields) => {
            let names: Vec<&str> = fields.iter().map(|(k, _)| k.as_str()).collect();
            assert_eq!(names, vec!["cbDone", "btnSave"]);
            assert_eq!(fields[0].1, check("rows__0__cbDone", true).to_data());
        }
        other => panic!("unexpected {:?}", other),
    }
}

#[test]
fn form_vector_renders_one_map_per_form() {
    let mut v = HtmlFormVector::new("rows");
    let mut first = HtmlForm::new();
    first.push(&check("rows__0__cbDone", true));
    v.forms.push(first);
    v.forms.push(HtmlForm::new());
    let (name, data) = v.build();
    assert_eq!(name, "rows");
    match data {
        TemplateData::List(items) => {
            assert_eq!(items.len(), 2);
            assert_eq!(items[1], TemplateData::Fields(vec![]));
        }
        other => panic!("unexpected {:?}", other),
    }
}
