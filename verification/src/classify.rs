//! The property classifier: assigns each declared property its role from its
//! name, its declared type shape, and whether it carries a property-level
//! `dynamic_tag` annotation. The rules are tried in a fixed precedence
//! order, first match wins:
//!
//! 1. a `dynamic_tag` annotation makes the property the tag selector;
//! 2. the name `attributes` is excluded (reserved for a dynamic attribute
//!    bag that is not supported yet);
//! 3. the name `node_ref` receives the constructed element's reference;
//! 4. a name `on` followed by a non-empty suffix, with a bare or optional
//!    callback shape, registers a listener for the lowercased suffix; with
//!    any other shape the name falls through and is treated literally;
//! 5. a reactive-wrapped shape is a reactive attribute;
//! 6. everything else is a plain attribute.
//!
//! A property that none of rules 1–3 claims must have an inspectable (path)
//! type shape; otherwise classification fails.

use vstd::prelude::*;
use vstd::string::StrSliceExecFns;
use crate::component::{Role, SpecRole};
use crate::error::{ErrorKind, SpecErrorKind};
use crate::schema::TypeShape;
use crate::text::{lower_str, lower_text, str_eq};

verus! {

/// Whether the name is the listener pattern: `on` followed by a non-empty
/// event-name suffix.
pub open spec fn spec_on_prefix(name: Seq<char>) -> bool {
    name.len() >= 3 && name[0] == 'o' && name[1] == 'n'
}

/// The event a listener property names: its suffix past `on`, lowercased.
pub open spec fn spec_event_of(name: Seq<char>) -> Seq<char> {
    lower_text(name.subrange(2, name.len() as int))
}

/// The role of a property, by the precedence rules, or the fault for a
/// property whose declared type cannot be inspected.
pub open spec fn spec_classify(name: Seq<char>, shape: TypeShape, has_dynamic_tag: bool) -> Result<
    SpecRole,
    SpecErrorKind,
> {
    if has_dynamic_tag {
        Ok(SpecRole::TagSelector)
    } else if name == "attributes"@ {
        Ok(SpecRole::Excluded)
    } else if name == "node_ref"@ {
        Ok(SpecRole::NodeRefSink)
    } else if shape is NonPath {
        Err(SpecErrorKind::NonPathType)
    } else if spec_on_prefix(name) && (shape is BareCallback || shape is OptionalCallback) {
        Ok(
            SpecRole::EventListener {
                event: spec_event_of(name),
                optional: shape is OptionalCallback,
            },
        )
    } else if shape is Reactive {
        Ok(SpecRole::ReactiveAttribute)
    } else {
        Ok(SpecRole::PlainAttribute)
    }
}

/// Classifies one property.
pub fn classify(name: &str, shape: TypeShape, has_dynamic_tag: bool) -> (r: Result<
    Role,
    ErrorKind,
>)
    ensures
        (match r {
            Ok(role) => spec_classify(name@, shape, has_dynamic_tag) == Ok::<
                SpecRole,
                SpecErrorKind,
            >(role@),
            Err(k) => spec_classify(name@, shape, has_dynamic_tag) == Err::<
                SpecRole,
                SpecErrorKind,
            >(k@),
        }),
{
    if has_dynamic_tag {
        return Ok(Role::TagSelector);
    }
    if str_eq(name, "attributes") {
        return Ok(Role::Excluded);
    }
    if str_eq(name, "node_ref") {
        return Ok(Role::NodeRefSink);
    }
    if shape == TypeShape::NonPath {
        return Err(ErrorKind::NonPathType);
    }
    let n = name.unicode_len();
    let listener_name = n >= 3 && name.get_char(0) == 'o' && name.get_char(1) == 'n';
    if listener_name && (shape == TypeShape::BareCallback || shape == TypeShape::OptionalCallback) {
        let event = lower_str(name.substring_char(2, n));
        return Ok(
            Role::EventListener { event, optional: shape == TypeShape::OptionalCallback },
        );
    }
    if shape == TypeShape::Reactive {
        return Ok(Role::ReactiveAttribute);
    }
    Ok(Role::PlainAttribute)
}

} // verus!
