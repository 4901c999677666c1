//! Identifiers, input types and live inputs of remote devices.

use vstd::prelude::*;

verus! {

/// What an [`Identifier`] holds, as mathematical values.
pub struct IdentifierView {
    pub name: Seq<char>,
    pub display_name: Seq<char>,
    pub description: Option<Seq<char>>,
}

/// Names, identifies and compares inputs, outputs and platforms.
///
/// Only the primary name takes part in comparisons; the display name and
/// the description are for user interfaces.
#[derive(Debug)]
pub struct Identifier {
    name: String,
    display_name: String,
    description: Option<String>,
}

impl View for Identifier {
    type V = IdentifierView;

    closed spec fn view(&self) -> IdentifierView {
        IdentifierView {
            name: self.name@,
            display_name: self.display_name@,
            description: match self.description {
                Some(text) => Some(text@),
                None => None,
            },
        }
    }
}

impl Identifier {
    /// Builds an identifier from its three parts. Never fails.
    pub fn new(name: &str, display_name: &str, description: Option<&str>) -> (id: Identifier)
        ensures
            id@.name == name@,
            id@.display_name == display_name@,
            id@.description == match description {
                Some(text) => Some(text@),
                None => None,
            },
    {
        let description = match description {
            Some(text) => Some(text.to_owned()),
            None => None,
        };
        Identifier { name: name.to_owned(), display_name: display_name.to_owned(), description }
    }

    /// The primary name: the only part that comparisons look at.
    pub fn name(&self) -> (name: &str)
        ensures
            name@ == self@.name,
    {
        self.name.as_str()
    }

    /// The name that user interfaces show.
    pub fn display_name(&self) -> (display_name: &str)
        ensures
            display_name@ == self@.display_name,
    {
        self.display_name.as_str()
    }

    /// The optional text that user interfaces may show.
    pub fn description(&self) -> (description: Option<&str>)
        ensures
            description.is_some() == self@.description.is_some(),
            description matches Some(text) ==> self@.description == Some(text@),
    {
        match &self.description {
            Some(text) => Some(text.as_str()),
            None => None,
        }
    }

    /// Whether `name` is this identifier's primary name.
    pub fn has_name(&self, name: &String) -> (hit: bool)
        ensures
            hit == (self@.name == name@),
    {
        self.name == *name
    }
}

impl PartialEq for Identifier {
    fn eq(&self, other: &Identifier) -> (equal: bool) {
        self.name == other.name
    }
}

impl Eq for Identifier {}

/// `String`'s `Hash::hash` of the standard library, which feeds the bytes of
/// the string to the hasher. Nothing is claimed of the hasher's new state.
pub assume_specification<H: std::hash::Hasher>[ <String as std::hash::Hash>::hash ](
    text: &String,
    state: &mut H,
);

impl std::hash::Hash for Identifier {
    fn hash<H: std::hash::Hasher>(&self, state: &mut H) {
        self.name.hash(state)
    }
}

impl vstd::std_specs::cmp::PartialEqSpecImpl for Identifier {
    open spec fn obeys_eq_spec() -> bool {
        true
    }

    open spec fn eq_spec(&self, other: &Identifier) -> bool {
        self@.name == other@.name
    }
}

/// The kind of one value that an input accepts.
#[derive(Clone, Copy, Debug, PartialEq, Eq, Structural)]
pub enum TypeTag {
    /// On or off.
    Flag,
    /// A whole number.
    Integer,
    /// A real number.
    Real,
}

/// Whether two lists of tags hold the same tags in the same order.
pub fn same_tags(left: &Vec<TypeTag>, right: &Vec<TypeTag>) -> (same: bool)
    ensures
        same == (left@ == right@),
{
    if left.len() != right.len() {
        return false;
    }
    let mut at: usize = 0;
    while at < left.len()
        invariant
            left@.len() == right@.len(),
            at <= left@.len(),
            forall|k: int| 0 <= k < at ==> left@[k] == right@[k],
        decreases left@.len() - at,
    {
        if left[at] != right[at] {
            return false;
        }
        at += 1;
    }
    assert(left@ =~= right@);
    true
}

/// Describes one class of input: who it is and the shape of the one
/// parameter it accepts.
pub trait InputType {
    /// The identity of this input type.
    spec fn id(&self) -> IdentifierView;

    /// The tags of the parameter, in order: one tag for a plain value,
    /// several for a tuple.
    spec fn parameter_shape(&self) -> Seq<TypeTag>;

    /// The name and the display texts of this input type.
    fn get_id(&self) -> (id: &Identifier)
        ensures
            id@ == self.id(),
    ;

    /// The tags of the parameter that this input type accepts.
    fn get_parameter_tags(&self) -> (tags: &Vec<TypeTag>)
        ensures
            tags@ == self.parameter_shape(),
    ;
}

/// An input type given by plain data.
#[derive(Debug)]
pub struct BasicInputType {
    pub id: Identifier,
    pub parameters: Vec<TypeTag>,
}

impl BasicInputType {
    /// An input type with the given identity and parameter shape.
    pub fn new(id: Identifier, parameters: Vec<TypeTag>) -> (input_type: BasicInputType)
        ensures
            input_type.id == id,
            input_type.parameters == parameters,
    {
        BasicInputType { id, parameters }
    }

    /// Whether a value of the given shape may be handed to an input of this
    /// type: the shapes must agree tag by tag.
    pub fn accepts(&self, shape: &Vec<TypeTag>) -> (fits: bool)
        ensures
            fits == (shape@ == self.parameter_shape()),
    {
        same_tags(shape, &self.parameters)
    }
}

impl InputType for BasicInputType {
    open spec fn id(&self) -> IdentifierView {
        self.id@
    }

    open spec fn parameter_shape(&self) -> Seq<TypeTag> {
        self.parameters@
    }

    fn get_id(&self) -> (id: &Identifier) {
        &self.id
    }

    fn get_parameter_tags(&self) -> (tags: &Vec<TypeTag>) {
        &self.parameters
    }
}

/// A live input: a value that controls a remote device, together with the
/// default it falls back to when the source of the value is lost.
pub trait Input<T> {
    /// The value the input holds now.
    spec fn current(&self) -> T;

    /// The value that [`Input::restore_default`] brings back.
    spec fn fallback(&self) -> T;

    /// Sets the input to its default value. Never fails.
    fn restore_default(&mut self)
        ensures
            final(self).current() == old(self).fallback(),
            final(self).fallback() == old(self).fallback(),
    ;

    /// Replaces the value. The value is not validated.
    fn set(&mut self, value: T)
        ensures
            final(self).current() == value,
            final(self).fallback() == old(self).fallback(),
    ;

    /// Reads the value.
    fn get(&self) -> (value: &T)
        ensures
            *value == self.current(),
    ;
}

/// An input that keeps its value and its default in memory.
#[derive(Debug)]
pub struct ValueInput<T> {
    value: T,
    default_value: T,
}

impl<T: Copy> Clone for ValueInput<T> {
    fn clone(&self) -> (copy: ValueInput<T>)
        ensures
            copy == *self,
    {
        *self
    }
}

impl<T: Copy> Copy for ValueInput<T> {

}

impl<T: Copy> ValueInput<T> {
    /// What the input is once `value` has been set.
    pub closed spec fn after_set(self, value: T) -> ValueInput<T> {
        ValueInput { value, default_value: self.default_value }
    }

    /// What the input is once its default has been restored.
    pub closed spec fn after_restore(self) -> ValueInput<T> {
        ValueInput { value: self.default_value, default_value: self.default_value }
    }

    /// What the input is once each of `values` has been set, first to last.
    pub open spec fn after_sets(self, values: Seq<T>) -> ValueInput<T>
        decreases values.len(),
    {
        if values.len() == 0 {
            self
        } else {
            self.after_sets(values.drop_last()).after_set(values.last())
        }
    }

    /// A new input that holds its default.
    pub fn new(default_value: T) -> (input: ValueInput<T>)
        ensures
            input.current() == default_value,
            input.fallback() == default_value,
    {
        ValueInput { value: default_value, default_value }
    }

    /// An input is known by its value and its default.
    pub proof fn extensional(self, other: ValueInput<T>)
        requires
            self.current() == other.current(),
            self.fallback() == other.fallback(),
        ensures
            self == other,
    {
    }

    /// Setting a value changes the value and keeps the default.
    pub proof fn after_set_holds(self, value: T)
        ensures
            self.after_set(value).current() == value,
            self.after_set(value).fallback() == self.fallback(),
    {
    }

    /// Restoring brings the default back and keeps it.
    pub proof fn after_restore_holds(self)
        ensures
            self.after_restore().current() == self.fallback(),
            self.after_restore().fallback() == self.fallback(),
    {
    }

    /// Whatever values were set, and however many, restoring the default
    /// afterwards leaves the input at the default it was made with.
    pub proof fn restore_undoes_sets(self, values: Seq<T>)
        ensures
            self.after_sets(values).fallback() == self.fallback(),
            self.after_sets(values).after_restore().current() == self.fallback(),
        decreases values.len(),
    {
        if values.len() > 0 {
            self.restore_undoes_sets(values.drop_last());
        }
    }
}

impl<T: Copy> Input<T> for ValueInput<T> {
    closed spec fn current(&self) -> T {
        self.value
    }

    closed spec fn fallback(&self) -> T {
        self.default_value
    }

    fn restore_default(&mut self)
        ensures
            *final(self) == old(self).after_restore(),
    {
        self.value = self.default_value;
    }

    fn set(&mut self, value: T)
        ensures
            *final(self) == old(self).after_set(value),
    {
        self.value = value;
    }

    fn get(&self) -> (value: &T) {
        &self.value
    }
}

/// A real number, held as the bit pattern of a double-precision value. The
/// library stores and hands on such a value and never computes with it.
#[derive(Clone, Copy, Debug, PartialEq, Eq, Structural)]
pub struct Real {
    pub bits: u64,
}

/// Two whole numbers that travel together as one value.
#[derive(Clone, Copy, Debug, PartialEq, Eq, Structural)]
pub struct IntegerPair {
    pub first: i64,
    pub second: i64,
}

/// Two real numbers that travel together as one value, such as a pair of
/// coordinates.
#[derive(Clone, Copy, Debug, PartialEq, Eq, Structural)]
pub struct RealPair {
    pub first: Real,
    pub second: Real,
}

/// A view of some live input that does not say, in its type, what kind of
/// value the input takes.
///
/// It borrows the input and never owns it. The typed input is had back by
/// [`AnyInput::downcast`], and only for the value type it was made from.
#[derive(Clone, Copy, Debug)]
pub enum AnyInput<'a> {
    /// An input that takes a `bool`.
    Flag(&'a ValueInput<bool>),
    /// An input that takes an `i64`.
    Integer(&'a ValueInput<i64>),
    /// An input that takes a real number.
    Real(&'a ValueInput<Real>),
    /// An input that takes a pair of whole numbers.
    IntegerPair(&'a ValueInput<IntegerPair>),
    /// An input that takes a pair of real numbers.
    RealPair(&'a ValueInput<RealPair>),
}

/// A live input as its owner holds it: a typed input of one of the value
/// types that the library knows.
#[derive(Clone, Copy, Debug)]
pub enum LiveInput {
    /// An input that takes a `bool`.
    Flag(ValueInput<bool>),
    /// An input that takes an `i64`.
    Integer(ValueInput<i64>),
    /// An input that takes a real number.
    Real(ValueInput<Real>),
    /// An input that takes a pair of whole numbers.
    IntegerPair(ValueInput<IntegerPair>),
    /// An input that takes a pair of real numbers.
    RealPair(ValueInput<RealPair>),
}

/// A type of value that a live input can take and that an [`AnyInput`] can
/// stand for.
pub trait InputValue: Copy {
    /// The tags that describe a value of this type.
    spec fn shape() -> Seq<TypeTag>;

    /// The typed input behind `any`, if it takes values of this type.
    spec fn held<'a>(any: AnyInput<'a>) -> Option<ValueInput<Self>>;

    /// A view holds an input of this type exactly when it has this type's
    /// shape.
    proof fn held_by_shape<'a>(any: AnyInput<'a>)
        ensures
            Self::held(any).is_some() <==> any.shape() == Self::shape(),
    ;

    /// The tags that describe a value of this type.
    fn tags() -> (tags: Vec<TypeTag>)
        ensures
            tags@ == Self::shape(),
    ;

    /// Forgets the value type of `input`.
    fn erase<'a>(input: &'a ValueInput<Self>) -> (any: AnyInput<'a>)
        ensures
            Self::held(any) == Some(*input),
    ;

    /// Wraps `input` for a session to own.
    fn own(input: ValueInput<Self>) -> (live: LiveInput)
        ensures
            Self::held(live.erased()) == Some(input),
    ;

    /// The typed input behind `any`, or `None` if it takes another type.
    fn recover<'a>(any: &AnyInput<'a>) -> (input: Option<&'a ValueInput<Self>>)
        ensures
            input.is_some() == Self::held(*any).is_some(),
            input matches Some(typed) ==> Self::held(*any) == Some(*typed),
    ;
}

impl InputValue for bool {
    open spec fn shape() -> Seq<TypeTag> {
        seq![TypeTag::Flag]
    }

    open spec fn held<'a>(any: AnyInput<'a>) -> Option<ValueInput<bool>> {
        match any {
            AnyInput::Flag(input) => Some(*input),
            _ => None,
        }
    }

    proof fn held_by_shape<'a>(any: AnyInput<'a>) {
        lemma_shapes_differ();
    }

    fn tags() -> (tags: Vec<TypeTag>) {
        vec![TypeTag::Flag]
    }

    fn erase<'a>(input: &'a ValueInput<bool>) -> (any: AnyInput<'a>) {
        AnyInput::Flag(input)
    }

    fn own(input: ValueInput<bool>) -> (live: LiveInput) {
        LiveInput::Flag(input)
    }

    fn recover<'a>(any: &AnyInput<'a>) -> (input: Option<&'a ValueInput<bool>>) {
        match any {
            AnyInput::Flag(input) => Some(*input),
            _ => None,
        }
    }
}

impl InputValue for i64 {
    open spec fn shape() -> Seq<TypeTag> {
        seq![TypeTag::Integer]
    }

    open spec fn held<'a>(any: AnyInput<'a>) -> Option<ValueInput<i64>> {
        match any {
            AnyInput::Integer(input) => Some(*input),
            _ => None,
        }
    }

    proof fn held_by_shape<'a>(any: AnyInput<'a>) {
        lemma_shapes_differ();
    }

    fn tags() -> (tags: Vec<TypeTag>) {
        vec![TypeTag::Integer]
    }

    fn erase<'a>(input: &'a ValueInput<i64>) -> (any: AnyInput<'a>) {
        AnyInput::Integer(input)
    }

    fn own(input: ValueInput<i64>) -> (live: LiveInput) {
        LiveInput::Integer(input)
    }

    fn recover<'a>(any: &AnyInput<'a>) -> (input: Option<&'a ValueInput<i64>>) {
        match any {
            AnyInput::Integer(input) => Some(*input),
            _ => None,
        }
    }
}

impl InputValue for Real {
    open spec fn shape() -> Seq<TypeTag> {
        seq![TypeTag::Real]
    }

    open spec fn held<'a>(any: AnyInput<'a>) -> Option<ValueInput<Real>> {
        match any {
            AnyInput::Real(input) => Some(*input),
            _ => None,
        }
    }

    proof fn held_by_shape<'a>(any: AnyInput<'a>) {
        lemma_shapes_differ();
    }

    fn tags() -> (tags: Vec<TypeTag>) {
        vec![TypeTag::Real]
    }

    fn erase<'a>(input: &'a ValueInput<Real>) -> (any: AnyInput<'a>) {
        AnyInput::Real(input)
    }

    fn own(input: ValueInput<Real>) -> (live: LiveInput) {
        LiveInput::Real(input)
    }

    fn recover<'a>(any: &AnyInput<'a>) -> (input: Option<&'a ValueInput<Real>>) {
        match any {
            AnyInput::Real(input) => Some(*input),
            _ => None,
        }
    }
}

impl InputValue for IntegerPair {
    open spec fn shape() -> Seq<TypeTag> {
        seq![TypeTag::Integer, TypeTag::Integer]
    }

    open spec fn held<'a>(any: AnyInput<'a>) -> Option<ValueInput<IntegerPair>> {
        match any {
            AnyInput::IntegerPair(input) => Some(*input),
            _ => None,
        }
    }

    proof fn held_by_shape<'a>(any: AnyInput<'a>) {
        lemma_shapes_differ();
    }

    fn tags() -> (tags: Vec<TypeTag>) {
        vec![TypeTag::Integer, TypeTag::Integer]
    }

    fn erase<'a>(input: &'a ValueInput<IntegerPair>) -> (any: AnyInput<'a>) {
        AnyInput::IntegerPair(input)
    }

    fn own(input: ValueInput<IntegerPair>) -> (live: LiveInput) {
        LiveInput::IntegerPair(input)
    }

    fn recover<'a>(any: &AnyInput<'a>) -> (input: Option<&'a ValueInput<IntegerPair>>) {
        match any {
            AnyInput::IntegerPair(input) => Some(*input),
            _ => None,
        }
    }
}

impl InputValue for RealPair {
    open spec fn shape() -> Seq<TypeTag> {
        seq![TypeTag::Real, TypeTag::Real]
    }

    open spec fn held<'a>(any: AnyInput<'a>) -> Option<ValueInput<RealPair>> {
        match any {
            AnyInput::RealPair(input) => Some(*input),
            _ => None,
        }
    }

    proof fn held_by_shape<'a>(any: AnyInput<'a>) {
        lemma_shapes_differ();
    }

    fn tags() -> (tags: Vec<TypeTag>) {
        vec![TypeTag::Real, TypeTag::Real]
    }

    fn erase<'a>(input: &'a ValueInput<RealPair>) -> (any: AnyInput<'a>) {
        AnyInput::RealPair(input)
    }

    fn own(input: ValueInput<RealPair>) -> (live: LiveInput) {
        LiveInput::RealPair(input)
    }

    fn recover<'a>(any: &AnyInput<'a>) -> (input: Option<&'a ValueInput<RealPair>>) {
        match any {
            AnyInput::RealPair(input) => Some(*input),
            _ => None,
        }
    }
}

/// No two of the value types share a shape.
proof fn lemma_shapes_differ()
    ensures
        <bool as InputValue>::shape() != <i64 as InputValue>::shape(),
        <bool as InputValue>::shape() != <Real as InputValue>::shape(),
        <bool as InputValue>::shape() != <IntegerPair as InputValue>::shape(),
        <bool as InputValue>::shape() != <RealPair as InputValue>::shape(),
        <i64 as InputValue>::shape() != <Real as InputValue>::shape(),
        <i64 as InputValue>::shape() != <IntegerPair as InputValue>::shape(),
        <i64 as InputValue>::shape() != <RealPair as InputValue>::shape(),
        <Real as InputValue>::shape() != <IntegerPair as InputValue>::shape(),
        <Real as InputValue>::shape() != <RealPair as InputValue>::shape(),
        <IntegerPair as InputValue>::shape() != <RealPair as InputValue>::shape(),
{
    assert(<bool as InputValue>::shape().len() == 1);
    assert(<bool as InputValue>::shape()[0] == TypeTag::Flag);
    assert(<i64 as InputValue>::shape().len() == 1);
    assert(<i64 as InputValue>::shape()[0] == TypeTag::Integer);
    assert(<Real as InputValue>::shape().len() == 1);
    assert(<Real as InputValue>::shape()[0] == TypeTag::Real);
    assert(<IntegerPair as InputValue>::shape().len() == 2);
    assert(<IntegerPair as InputValue>::shape()[0] == TypeTag::Integer);
    assert(<RealPair as InputValue>::shape().len() == 2);
    assert(<RealPair as InputValue>::shape()[0] == TypeTag::Real);
}

impl<'a> AnyInput<'a> {
    /// The tags of the value that the input behind this view takes.
    pub open spec fn shape(self) -> Seq<TypeTag> {
        match self {
            AnyInput::Flag(_) => seq![TypeTag::Flag],
            AnyInput::Integer(_) => seq![TypeTag::Integer],
            AnyInput::Real(_) => seq![TypeTag::Real],
            AnyInput::IntegerPair(_) => seq![TypeTag::Integer, TypeTag::Integer],
            AnyInput::RealPair(_) => seq![TypeTag::Real, TypeTag::Real],
        }
    }

    /// A view of `input` without its value type.
    pub fn new<U: InputValue>(input: &'a ValueInput<U>) -> (any: AnyInput<'a>)
        ensures
            U::held(any) == Some(*input),
            any.shape() == U::shape(),
    {
        let any = U::erase(input);
        proof {
            U::held_by_shape(any);
        }
        any
    }

    /// The typed input behind this view, if it takes values of type `U`;
    /// `None` if it takes another type.
    pub fn downcast<U: InputValue>(&self) -> (input: Option<&'a ValueInput<U>>)
        ensures
            input.is_some() == (self.shape() == U::shape()),
            input matches Some(typed) ==> U::held(*self) == Some(*typed),
    {
        proof {
            U::held_by_shape(*self);
        }
        U::recover(self)
    }

    /// The tags of the value that the input behind this view takes.
    pub fn parameter_tags(&self) -> (tags: Vec<TypeTag>)
        ensures
            tags@ == self.shape(),
    {
        match self {
            AnyInput::Flag(_) => <bool as InputValue>::tags(),
            AnyInput::Integer(_) => <i64 as InputValue>::tags(),
            AnyInput::Real(_) => <Real as InputValue>::tags(),
            AnyInput::IntegerPair(_) => <IntegerPair as InputValue>::tags(),
            AnyInput::RealPair(_) => <RealPair as InputValue>::tags(),
        }
    }

    /// A view made from an input of type `U` gives that input back to a
    /// caller that asks for `U`, and gives nothing to a caller that asks for
    /// a type `V` of another shape.
    pub proof fn downcast_recovers_only_its_type<U: InputValue, V: InputValue>(
        self,
        input: ValueInput<U>,
    )
        requires
            U::held(self) == Some(input),
        ensures
            self.shape() == U::shape(),
            V::shape() != U::shape() ==> V::held(self).is_none(),
    {
        U::held_by_shape(self);
        V::held_by_shape(self);
    }
}

impl LiveInput {
    /// The view of this input that hides its value type.
    pub open spec fn erased<'a>(&'a self) -> AnyInput<'a> {
        match self {
            LiveInput::Flag(input) => AnyInput::Flag(input),
            LiveInput::Integer(input) => AnyInput::Integer(input),
            LiveInput::Real(input) => AnyInput::Real(input),
            LiveInput::IntegerPair(input) => AnyInput::IntegerPair(input),
            LiveInput::RealPair(input) => AnyInput::RealPair(input),
        }
    }

    /// The tags of the value that this input takes.
    pub open spec fn shape(&self) -> Seq<TypeTag> {
        self.erased().shape()
    }

    /// This input with its default restored.
    pub open spec fn restored(self) -> LiveInput {
        match self {
            LiveInput::Flag(input) => LiveInput::Flag(input.after_restore()),
            LiveInput::Integer(input) => LiveInput::Integer(input.after_restore()),
            LiveInput::Real(input) => LiveInput::Real(input.after_restore()),
            LiveInput::IntegerPair(input) => LiveInput::IntegerPair(input.after_restore()),
            LiveInput::RealPair(input) => LiveInput::RealPair(input.after_restore()),
        }
    }

    /// Whether this input holds its default.
    pub open spec fn at_default(self) -> bool {
        match self {
            LiveInput::Flag(input) => input.current() == input.fallback(),
            LiveInput::Integer(input) => input.current() == input.fallback(),
            LiveInput::Real(input) => input.current() == input.fallback(),
            LiveInput::IntegerPair(input) => input.current() == input.fallback(),
            LiveInput::RealPair(input) => input.current() == input.fallback(),
        }
    }

    /// An input whose default was restored holds its default, and takes
    /// values of the shape it took before.
    pub proof fn restored_holds_default(self)
        ensures
            self.restored().at_default(),
            self.restored().shape() == self.shape(),
    {
        match self {
            LiveInput::Flag(input) => input.after_restore_holds(),
            LiveInput::Integer(input) => input.after_restore_holds(),
            LiveInput::Real(input) => input.after_restore_holds(),
            LiveInput::IntegerPair(input) => input.after_restore_holds(),
            LiveInput::RealPair(input) => input.after_restore_holds(),
        }
    }

    /// The view of this input that hides its value type.
    pub fn as_any<'a>(&'a self) -> (any: AnyInput<'a>)
        ensures
            any == self.erased(),
    {
        match self {
            LiveInput::Flag(input) => AnyInput::new(input),
            LiveInput::Integer(input) => AnyInput::new(input),
            LiveInput::Real(input) => AnyInput::new(input),
            LiveInput::IntegerPair(input) => AnyInput::new(input),
            LiveInput::RealPair(input) => AnyInput::new(input),
        }
    }

    /// Sets the input to its default value, whatever its value type.
    pub fn restore_default(&mut self)
        ensures
            *final(self) == old(self).restored(),
    {
        match self {
            LiveInput::Flag(input) => input.restore_default(),
            LiveInput::Integer(input) => input.restore_default(),
            LiveInput::Real(input) => input.restore_default(),
            LiveInput::IntegerPair(input) => input.restore_default(),
            LiveInput::RealPair(input) => input.restore_default(),
        }
    }
}

} // verus!
