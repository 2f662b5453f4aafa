//! The descriptor of a struct and of its fields.
//!
//! [`PropertyRef`] and [`PropertiesInfo`] are static data: the impl that is
//! written for a struct builds them from literals, and nothing is allocated
//! when it is called. [`PropertyBuf`] and [`PropertiesBuf`] are their owned
//! twins, for a descriptor that is computed while the program runs. A
//! descriptor and its twin have the same view.

use vstd::prelude::*;
use vstd::string::StringExecFns;

verus! {

/// The view of an optional text.
pub open spec fn text_opt(o: Option<String>) -> Option<Seq<char>> {
    match o {
        Some(s) => Some(s@),
        None => None,
    }
}

/// The view of an optional static text.
pub open spec fn str_opt(o: Option<&'static str>) -> Option<Seq<char>> {
    match o {
        Some(s) => Some(s@),
        None => None,
    }
}

/// What is known of one field.
#[derive(Debug, PartialEq, Eq, Clone)]
pub struct PropertyRef {
    /// The field's identifier.
    pub name: &'static str,
    /// The field's type, as its tokens print.
    pub ty: &'static str,
    /// Whether a value must be given: no annotation supplies a default.
    pub required: bool,
    /// The expression that supplies the default, as its tokens print.
    pub default: Option<&'static str>,
    /// The documentation text given by `prop_description`.
    pub description: Option<&'static str>,
}

/// What is known of one field, with texts of its own.
#[derive(Debug, PartialEq, Eq, Clone)]
pub struct PropertyBuf {
    /// The field's identifier.
    pub name: String,
    /// The field's type, as its tokens print.
    pub ty: String,
    /// Whether a value must be given: no annotation supplies a default.
    pub required: bool,
    /// The expression that supplies the default, as its tokens print.
    pub default: Option<String>,
    /// The documentation text given by `prop_description`.
    pub description: Option<String>,
}

/// The view of [`PropertyRef`] and of [`PropertyBuf`]: the texts as sequences
/// of characters.
pub ghost struct PropertyRefView {
    pub name: Seq<char>,
    pub ty: Seq<char>,
    pub required: bool,
    pub default: Option<Seq<char>>,
    pub description: Option<Seq<char>>,
}

impl PropertyRefView {
    /// A field is required exactly when it has no default.
    pub open spec fn well_formed(self) -> bool {
        self.required <==> self.default is None
    }
}

impl View for PropertyRef {
    type V = PropertyRefView;

    open spec fn view(&self) -> PropertyRefView {
        PropertyRefView {
            name: self.name@,
            ty: self.ty@,
            required: self.required,
            default: str_opt(self.default),
            description: str_opt(self.description),
        }
    }
}

impl View for PropertyBuf {
    type V = PropertyRefView;

    open spec fn view(&self) -> PropertyRefView {
        PropertyRefView {
            name: self.name@,
            ty: self.ty@,
            required: self.required,
            default: text_opt(self.default),
            description: text_opt(self.description),
        }
    }
}

/// What is known of one struct: its name, the module that declares it, and
/// its fields in declaration order.
#[derive(Debug, PartialEq, Eq, Clone)]
pub struct PropertiesInfo {
    /// The struct's identifier.
    pub ty: &'static str,
    /// The path of the module that holds the declaration.
    pub module: &'static str,
    /// One entry per field, in declaration order.
    pub fields: &'static [PropertyRef],
}

/// What is known of one struct, with texts of its own.
#[derive(Debug, PartialEq, Eq, Clone)]
pub struct PropertiesBuf {
    /// The struct's identifier.
    pub ty: String,
    /// The path of the module that holds the declaration.
    pub module: String,
    /// One entry per field, in declaration order.
    pub fields: Vec<PropertyBuf>,
}

/// The view of [`PropertiesInfo`] and of [`PropertiesBuf`]: the texts as
/// sequences of characters.
pub ghost struct PropertiesInfoView {
    pub ty: Seq<char>,
    pub module: Seq<char>,
    pub fields: Seq<PropertyRefView>,
}

impl PropertiesInfoView {
    /// Every field is well formed.
    pub open spec fn well_formed(self) -> bool {
        forall|i: int| 0 <= i < self.fields.len() ==> (#[trigger] self.fields[i]).well_formed()
    }
}

impl View for PropertiesInfo {
    type V = PropertiesInfoView;

    open spec fn view(&self) -> PropertiesInfoView {
        PropertiesInfoView {
            ty: self.ty@,
            module: self.module@,
            fields: self.fields@.map_values(|f: PropertyRef| f@),
        }
    }
}

impl View for PropertiesBuf {
    type V = PropertiesInfoView;

    open spec fn view(&self) -> PropertiesInfoView {
        PropertiesInfoView {
            ty: self.ty@,
            module: self.module@,
            fields: self.fields@.map_values(|f: PropertyBuf| f@),
        }
    }
}

/// An owned copy of an optional static text.
fn own_text(text: &Option<&'static str>) -> (r: Option<String>)
    ensures
        text_opt(r) == str_opt(*text),
{
    match text {
        Some(s) => Some(String::from_str(s)),
        None => None,
    }
}

impl PropertyBuf {
    /// An owned copy of a field's descriptor.
    pub fn from_ref(field: &PropertyRef) -> (r: PropertyBuf)
        ensures
            r@ == field@,
    {
        PropertyBuf {
            name: String::from_str(field.name),
            ty: String::from_str(field.ty),
            required: field.required,
            default: own_text(&field.default),
            description: own_text(&field.description),
        }
    }
}

impl PropertiesBuf {
    /// An owned copy of a struct's descriptor.
    pub fn from_info(info: &PropertiesInfo) -> (r: PropertiesBuf)
        ensures
            r@ == info@,
    {
        let mut fields: Vec<PropertyBuf> = Vec::new();
        let mut i: usize = 0;
        while i < info.fields.len()
            invariant
                i <= info.fields.len(),
                fields@.map_values(|f: PropertyBuf| f@) == info.fields@.take(i as int).map_values(
                    |f: PropertyRef| f@,
                ),
            decreases info.fields.len() - i,
        {
            let ghost before = fields@.map_values(|f: PropertyBuf| f@);
            let field = PropertyBuf::from_ref(&info.fields[i]);
            fields.push(field);
            assert(fields@.map_values(|f: PropertyBuf| f@) =~= before.push(field@));
            assert(info.fields@.take(i + 1).map_values(|f: PropertyRef| f@) =~= before.push(
                info.fields@[i as int]@,
            ));
            i += 1;
        }
        assert(info.fields@.take(i as int) =~= info.fields@);
        PropertiesBuf {
            ty: String::from_str(info.ty),
            module: String::from_str(info.module),
            fields,
        }
    }
}

/// A type that can describe its own fields.
pub trait HasPropertyInfo {
    fn property_info() -> PropertiesInfo;
}

} // verus!
