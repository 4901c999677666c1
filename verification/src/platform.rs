//! Descriptions of operable platforms.
//!
//! Backends declare their platforms with these types; frontends read them to
//! learn what a family of devices can be told.

use vstd::prelude::*;
use crate::control::BasicInputType;

verus! {

/// What a [`PlatformMetaInfo`] holds, as mathematical values.
pub struct PlatformMetaInfoView {
    pub name: Seq<char>,
    pub version: Seq<char>,
    pub description: Seq<char>,
}

/// Texts about a platform for user interfaces to show. Nothing in the
/// library depends on them.
#[derive(Debug)]
pub struct PlatformMetaInfo {
    name: String,
    version: String,
    description: String,
}

impl View for PlatformMetaInfo {
    type V = PlatformMetaInfoView;

    closed spec fn view(&self) -> PlatformMetaInfoView {
        PlatformMetaInfoView {
            name: self.name@,
            version: self.version@,
            description: self.description@,
        }
    }
}

impl PlatformMetaInfo {
    /// Builds the texts of a platform. Never fails.
    pub fn new(name: &str, version: &str, description: &str) -> (info: PlatformMetaInfo)
        ensures
            info@.name == name@,
            info@.version == version@,
            info@.description == description@,
    {
        PlatformMetaInfo {
            name: name.to_owned(),
            version: version.to_owned(),
            description: description.to_owned(),
        }
    }

    /// The platform's name.
    pub fn name(&self) -> (name: &str)
        ensures
            name@ == self@.name,
    {
        self.name.as_str()
    }

    /// The platform's version.
    pub fn version(&self) -> (version: &str)
        ensures
            version@ == self@.version,
    {
        self.version.as_str()
    }

    /// A text about the platform.
    pub fn description(&self) -> (description: &str)
        ensures
            description@ == self@.description,
    {
        self.description.as_str()
    }
}

/// Whether no two of `inputs` share a primary name.
pub open spec fn distinct_names(inputs: Seq<BasicInputType>) -> bool {
    forall|i: int, j: int|
        0 <= i < j < inputs.len() ==> (#[trigger] inputs[i]).id@.name != (#[trigger] inputs[j]).id@.name
}

/// Whether one of `inputs` has the primary name `name`.
pub open spec fn declares(inputs: Seq<BasicInputType>, name: Seq<char>) -> bool {
    exists|i: int| 0 <= i < inputs.len() && (#[trigger] inputs[i]).id@.name == name
}

/// The place of the first of `inputs` whose primary name is `name`, if there
/// is one.
pub fn position_of(inputs: &Vec<BasicInputType>, name: &String) -> (place: Option<usize>)
    ensures
        place.is_some() == declares(inputs@, name@),
        place matches Some(at) ==> {
            &&& at < inputs@.len()
            &&& inputs@[at as int].id@.name == name@
            &&& forall|k: int| 0 <= k < at ==> (#[trigger] inputs@[k]).id@.name != name@
        },
{
    let mut at: usize = 0;
    while at < inputs.len()
        invariant
            at <= inputs@.len(),
            forall|k: int| 0 <= k < at ==> (#[trigger] inputs@[k]).id@.name != name@,
        decreases inputs@.len() - at,
    {
        if inputs[at].id.has_name(name) {
            return Some(at);
        }
        at += 1;
    }
    None
}

/// Whether no two of `inputs` share a primary name.
pub fn has_distinct_names(inputs: &Vec<BasicInputType>) -> (distinct: bool)
    ensures
        distinct == distinct_names(inputs@),
{
    let mut upper: usize = 0;
    while upper < inputs.len()
        invariant
            upper <= inputs@.len(),
            forall|i: int, j: int|
                0 <= i < j < upper ==> (#[trigger] inputs@[i]).id@.name != (
                #[trigger] inputs@[j]).id@.name,
        decreases inputs@.len() - upper,
    {
        let mut lower: usize = 0;
        while lower < upper
            invariant
                lower <= upper < inputs@.len(),
                forall|i: int|
                    0 <= i < lower ==> (#[trigger] inputs@[i]).id@.name != inputs@[upper as int].id@.name,
            decreases upper - lower,
        {
            if inputs[lower].id == inputs[upper].id {
                return false;
            }
            lower += 1;
        }
        upper += 1;
    }
    true
}

/// What a backend tells about one family of remote devices, whichever way
/// it keeps that knowledge.
pub trait PlatformDescription {
    /// The texts about the platform.
    spec fn meta(&self) -> PlatformMetaInfoView;

    /// The input types that the platform supports, in their fixed order.
    spec fn inputs(&self) -> Seq<BasicInputType>;

    /// The texts about the platform.
    fn meta_info(&self) -> (info: &PlatformMetaInfo)
        ensures
            info@ == self.meta(),
    ;

    /// The input types that the platform supports. The list is the same at
    /// every call, and no two of its entries share a primary name.
    fn control_inputs(&self) -> (inputs: &Vec<BasicInputType>)
        ensures
            inputs@ == self.inputs(),
            distinct_names(inputs@),
    ;
}

/// Describes how one type of remote device is controlled.
///
/// It holds what a user interface needs to start working with such a device.
/// It is no link to a live device, and nothing in it changes.
#[derive(Debug)]
pub struct Platform {
    meta_info: PlatformMetaInfo,
    control_inputs: Vec<BasicInputType>,
}

impl Platform {
    #[verifier::type_invariant]
    closed spec fn names_are_distinct(&self) -> bool {
        distinct_names(self.control_inputs@)
    }

    /// Builds a platform from its texts and its input types. Gives `None`
    /// where two of the input types share a primary name.
    pub fn new(meta_info: PlatformMetaInfo, control_inputs: Vec<BasicInputType>) -> (platform: Option<Platform>)
        ensures
            platform.is_some() == distinct_names(control_inputs@),
            platform matches Some(built) ==> built.meta() == meta_info@ && built.inputs()
                == control_inputs@,
    {
        if has_distinct_names(&control_inputs) {
            Some(Platform { meta_info, control_inputs })
        } else {
            None
        }
    }

    /// The input type with the primary name `name`, or `None` where the
    /// platform declares none.
    pub fn find_input(&self, name: &str) -> (found: Option<&BasicInputType>)
        ensures
            found.is_some() == declares(self.inputs(), name@),
            found matches Some(input_type) ==> input_type.id@.name == name@
                && self.inputs().contains(*input_type),
    {
        let key = name.to_owned();
        match position_of(&self.control_inputs, &key) {
            Some(at) => Some(&self.control_inputs[at]),
            None => None,
        }
    }
}

impl PlatformDescription for Platform {
    closed spec fn meta(&self) -> PlatformMetaInfoView {
        self.meta_info@
    }

    closed spec fn inputs(&self) -> Seq<BasicInputType> {
        self.control_inputs@
    }

    fn meta_info(&self) -> (info: &PlatformMetaInfo) {
        &self.meta_info
    }

    fn control_inputs(&self) -> (inputs: &Vec<BasicInputType>) {
        proof {
            use_type_invariant(self);
        }
        &self.control_inputs
    }
}

} // verus!
