//! YAML text: reading it with `serde_yaml`.
use vstd::prelude::*;

verus! {

/// A parsed document as `serde_yaml` holds it.
#[verifier::external_type_specification]
#[verifier::external_body]
pub struct ExYaml(serde_yaml::Value);

/// What a YAML value holds, as far as it counts here.
pub enum YamlView {
    Text(Seq<char>),
    Mapping(Seq<(YamlView, YamlView)>),
    Tagged(Box<YamlView>),
    Other,
}

/// What a `serde_yaml::Value` holds.
pub uninterp spec fn yaml_view(v: serde_yaml::Value) -> YamlView;

/// The value that a YAML text stands for, or none where it is not one `serde_yaml::from_str`
/// accepts.
pub uninterp spec fn yaml_parsed(text: Seq<char>) -> Option<YamlView>;

/// One level of a `serde_yaml::Value`.
pub enum YamlNode {
    Text(String),
    Mapping(Vec<(serde_yaml::Value, serde_yaml::Value)>),
    Tagged(serde_yaml::Value),
    Other,
}

pub open spec fn yaml_entries(entries: Seq<(serde_yaml::Value, serde_yaml::Value)>) -> Seq<
    (YamlView, YamlView),
> {
    entries.map_values(|e: (serde_yaml::Value, serde_yaml::Value)| (yaml_view(e.0), yaml_view(e.1)))
}

pub open spec fn yaml_node_view(node: YamlNode) -> YamlView {
    match node {
        YamlNode::Text(s) => YamlView::Text(s@),
        YamlNode::Mapping(entries) => YamlView::Mapping(yaml_entries(entries@)),
        YamlNode::Tagged(v) => YamlView::Tagged(Box::new(yaml_view(v))),
        YamlNode::Other => YamlView::Other,
    }
}

/// Opens one level of a `serde_yaml::Value`: a string, the entries of a mapping in the order in
/// which `Mapping::into_iter` yields them, what a tag stands before, or anything else.
#[verifier::external_body]
fn open_yaml(v: serde_yaml::Value) -> (r: YamlNode)
    ensures
        yaml_node_view(r) == yaml_view(v),
{
    match v {
        serde_yaml::Value::String(s) => YamlNode::Text(s),
        serde_yaml::Value::Mapping(m) => YamlNode::Mapping(m.into_iter().collect()),
        serde_yaml::Value::Tagged(t) => YamlNode::Tagged(t.value),
        _ => YamlNode::Other,
    }
}

/// `serde_yaml::from_str` at type `Value`: the outcome is a function of the text.
#[verifier::external_body]
fn parse_value(text: &str) -> (r: Option<serde_yaml::Value>)
    ensures
        match r {
            Some(v) => yaml_parsed(text@) == Some(yaml_view(v)),
            None => yaml_parsed(text@) is None,
        },
{
    serde_yaml::from_str::<serde_yaml::Value>(text).ok()
}

/// The value that a YAML text stands for.
pub fn parse_yaml(text: &str) -> (r: Option<serde_yaml::Value>)
    ensures
        match r {
            Some(v) => yaml_parsed(text@) == Some(yaml_view(v)),
            None => yaml_parsed(text@) is None,
        },
{
    parse_value(text)
}

/// A value without the tags before it.
pub open spec fn untagged(v: YamlView) -> YamlView
    decreases v,
{
    match v {
        YamlView::Tagged(inner) => untagged(*inner),
        _ => v,
    }
}

/// One level of a value, without the tags before it.
pub fn plain(v: serde_yaml::Value) -> (r: YamlNode)
    ensures
        yaml_node_view(r) == untagged(yaml_view(v)),
        !(r is Tagged),
    decreases yaml_view(v),
{
    let ghost whole = yaml_view(v);
    match open_yaml(v) {
        YamlNode::Tagged(inner) => {
            assert(decreases_to!(whole => whole->Tagged_0));
            plain(inner)
        },
        node => node,
    }
}

/// The string that a value is, tags or not.
pub open spec fn yaml_text(v: YamlView) -> Option<Seq<char>> {
    match untagged(v) {
        YamlView::Text(s) => Some(s),
        _ => None,
    }
}

/// The string that a value is, tags or not.
pub fn text_value(v: serde_yaml::Value) -> (r: Option<String>)
    ensures
        (match r {
            Some(s) => Some(s@),
            None => None,
        }) == yaml_text(yaml_view(v)),
{
    match plain(v) {
        YamlNode::Text(s) => Some(s),
        _ => None,
    }
}

/// The value of the first entry, from the `n`th on, whose key is a string without a tag.
pub open spec fn yaml_field(entries: Seq<(YamlView, YamlView)>, name: Seq<char>, n: int) -> Option<
    YamlView,
>
    decreases entries.len() - n,
{
    if n < 0 || n >= entries.len() {
        None
    } else if entries[n].0 == YamlView::Text(name) {
        Some(entries[n].1)
    } else {
        yaml_field(entries, name, n + 1)
    }
}

/// The value in a field of a mapping, tags or not.
pub open spec fn yaml_get(v: YamlView, name: Seq<char>) -> Option<YamlView> {
    match untagged(v) {
        YamlView::Mapping(entries) => yaml_field(entries, name, 0),
        _ => None,
    }
}

/// The value in a field of a mapping, tags or not.
pub fn field_value(v: serde_yaml::Value, name: &str) -> (r: Option<serde_yaml::Value>)
    ensures
        (match r {
            Some(v) => Some(yaml_view(v)),
            None => None,
        }) == yaml_get(yaml_view(v), name@),
{
    match plain(v) {
        YamlNode::Mapping(entries) => {
            let ghost all = yaml_entries(entries@);
            let mut rest = entries;
            let ghost mut i: int = 0;
            assert(all == all.skip(0));
            while rest.len() > 0
                invariant
                    0 <= i,
                    i + rest.len() == all.len(),
                    yaml_entries(rest@) == all.skip(i),
                    yaml_field(all, name@, 0) == yaml_field(all, name@, i),
                    untagged(yaml_view(v)) == YamlView::Mapping(all),
                decreases rest.len(),
            {
                let ghost held = rest@;
                assert(yaml_entries(held)[0] == all.skip(i)[0]);
                let (key, value) = rest.remove(0);
                assert(all[i] == (yaml_view(key), yaml_view(value)));
                assert(yaml_entries(rest@) == all.skip(i + 1)) by {
                    assert(yaml_entries(rest@) == yaml_entries(held).skip(1));
                }
                match open_yaml(key) {
                    YamlNode::Text(s) => if crate::text::same(s.as_str(), name) {
                        return Some(value);
                    },
                    _ => {},
                }
                proof {
                    i = i + 1;
                }
            }
            None
        },
        _ => None,
    }
}

} // verus!
