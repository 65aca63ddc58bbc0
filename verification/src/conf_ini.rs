//! What this library takes from the `ini` crate: a configuration file in
//! memory, as a list of sections that each hold a list of properties.
//! Nothing in this file is proved: each contract records what the crate's
//! source shows of the call that the body makes.

use vstd::prelude::*;

verus! {

/// A configuration file of the `ini` crate.
#[verifier::external_type_specification]
#[verifier::external_body]
pub struct ExIni(ini::Ini);

/// One section handed out of a configuration file: its name, `None` for
/// the general section, and its properties as keys with their values.
#[derive(Clone, Debug, PartialEq, Eq)]
pub struct IniSection {
    pub name: Option<String>,
    pub properties: Vec<(String, String)>,
}

/// A property by the texts of its key and its value.
pub type PropertyView = (Seq<char>, Seq<char>);

/// A section by the text of its name and its properties.
pub type SectionView = (Option<Seq<char>>, Seq<PropertyView>);

/// The properties of a list, each by its view.
pub open spec fn property_views(properties: Seq<(String, String)>) -> Seq<PropertyView> {
    Seq::new(properties.len(), |i: int| (properties[i].0@, properties[i].1@))
}

impl View for IniSection {
    type V = SectionView;

    open spec fn view(&self) -> SectionView {
        (
            match self.name {
                Some(name) => Some(name@),
                None => None,
            },
            property_views(self.properties@),
        )
    }
}

/// The sections of a list, each by its view.
pub open spec fn section_views(sections: Seq<IniSection>) -> Seq<SectionView> {
    Seq::new(sections.len(), |i: int| sections[i]@)
}

/// What a configuration file holds: its sections in the order in which
/// `Ini::iter` walks them, each with its properties in the order in which
/// `Properties::iter` walks them.
pub uninterp spec fn ini_sections(ini: ini::Ini) -> Seq<SectionView>;

/// Whether no section of a list has the name `name`.
pub open spec fn no_section_named(sections: Seq<SectionView>, name: Seq<char>) -> bool {
    forall|i: int| 0 <= i < sections.len() ==> (#[trigger] sections[i]).0 != Some(name)
}

/// Whether no property of a list has the key `key`.
pub open spec fn no_property_keyed(properties: Seq<PropertyView>, key: Seq<char>) -> bool {
    forall|i: int| 0 <= i < properties.len() ==> (#[trigger] properties[i]).0 != key
}

/// Whether the last section of a list is the only one with the name
/// `name`, and has no property with the key `key`.
pub open spec fn last_section_lacks(sections: Seq<SectionView>, name: Seq<char>, key: Seq<char>) -> bool {
    &&& sections.len() > 0
    &&& sections.last().0 == Some(name)
    &&& no_section_named(sections.drop_last(), name)
    &&& no_property_keyed(sections.last().1, key)
}

/// Calls `Ini::new`, which makes a file with an empty general section.
#[verifier::external_body]
pub(crate) fn ini_new() -> (r: ini::Ini)
    ensures
        ini_sections(r) == seq![(None::<Seq<char>>, Seq::<PropertyView>::empty())],
{
    ini::Ini::new()
}

/// Calls `Ini::with_section` and `SectionSetter::set`. Where the file has
/// no section of that name, one is added at the end with the property as
/// its only one. Where its last section is the only one of that name and
/// lacks the key, the property is added at the end of that section. The
/// contract covers no other case.
#[verifier::external_body]
pub(crate) fn ini_set(ini: &mut ini::Ini, section: &str, key: &str, value: &str)
    requires
        no_section_named(ini_sections(*old(ini)), section@) || last_section_lacks(
            ini_sections(*old(ini)),
            section@,
            key@,
        ),
    ensures
        no_section_named(ini_sections(*old(ini)), section@) ==> ini_sections(*final(ini))
            == ini_sections(*old(ini)).push((Some(section@), seq![(key@, value@)])),
        !no_section_named(ini_sections(*old(ini)), section@) ==> ini_sections(*final(ini))
            == ini_sections(*old(ini)).drop_last().push(
            (Some(section@), ini_sections(*old(ini)).last().1.push((key@, value@))),
        ),
{
    ini.with_section(Some(section)).set(key, value);
}

/// Walks the file with `Ini::iter` and each section with
/// `Properties::iter`, and hands out what they yield, in their order.
#[verifier::external_body]
pub(crate) fn ini_read(ini: &ini::Ini) -> (r: Vec<IniSection>)
    ensures
        section_views(r@) == ini_sections(*ini),
{
    ini.iter().map(|(name, properties)| IniSection {
        name: name.map(|n| n.to_string()),
        properties: properties.iter().map(|(k, v)| (k.to_string(), v.to_string())).collect(),
    }).collect()
}

} // verus!
