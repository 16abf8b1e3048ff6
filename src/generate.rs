use vstd::prelude::*;
use vstd::string::StringExecFns;

verus! {

/// Which of the two generated conversions is meant.
#[derive(Clone, Copy, Debug, PartialEq, Eq, Structural)]
pub enum Direction {
    /// From the annotated (native) type to its paired (bridge) type.
    ToBridge,
    /// From the paired (bridge) type back to the annotated (native) type.
    FromBridge,
}

/// One named field of an annotated declaration, with its converter
/// overrides: `map_from` converts the bridge value into the native one,
/// `map_into` the native value into the bridge one.
pub struct FieldDecl {
    pub name: String,
    pub map_from: Option<String>,
    pub map_into: Option<String>,
}

/// The field shape of an annotated declaration.
pub enum DeclShape {
    /// A struct with named fields, in declaration order.
    Named(Vec<FieldDecl>),
    /// A tuple struct with this many fields; only a wrapper around one
    /// value can be mapped.
    Unnamed(usize),
    /// A struct without fields.
    Unit,
    /// Not a struct (an enum or a union).
    Other,
}

/// An annotated declaration: its name, the paired type named by its
/// `map` attribute (if any), and its shape. Names and converters are
/// source text.
pub struct Declaration {
    pub name: String,
    pub map_type: Option<String>,
    pub shape: DeclShape,
}

/// Why no conversions can be generated for a declaration.
#[derive(Clone, Copy, Debug, PartialEq, Eq, Structural)]
pub enum GenError {
    /// The declaration has no `map` attribute naming its paired type.
    MissingMapType,
    /// The declaration is a struct without fields.
    UnitStruct,
    /// The declaration is a tuple struct with more than one field.
    TupleArity,
    /// A field's `map` attribute gives `from` or `into` twice.
    RepeatedDirective,
    /// A field's `map` attribute holds an item other than `from` or `into`.
    UnknownDirective,
    /// The declaration is not a struct.
    NotAStruct,
}

impl GenError {
    pub open spec fn message_spec(self) -> Seq<char> {
        match self {
            GenError::MissingMapType => "Must specify a map type"@,
            GenError::UnitStruct => "Unsupported unit type"@,
            GenError::TupleArity => "Unsupported tuple struct with more than one field"@,
            GenError::RepeatedDirective => "Repeated map directive on a field"@,
            GenError::UnknownDirective => "Unknown map directive on a field"@,
            GenError::NotAStruct => "Unsupported type"@,
        }
    }

    /// The diagnostic that reports this error.
    pub fn message(&self) -> (r: String)
        ensures
            r@ == self.message_spec(),
    {
        match self {
            GenError::MissingMapType => String::from_str("Must specify a map type"),
            GenError::UnitStruct => String::from_str("Unsupported unit type"),
            GenError::TupleArity => String::from_str("Unsupported tuple struct with more than one field"),
            GenError::RepeatedDirective => String::from_str("Repeated map directive on a field"),
            GenError::UnknownDirective => String::from_str("Unknown map directive on a field"),
            GenError::NotAStruct => String::from_str("Unsupported type"),
        }
    }
}

/// How one field's value is converted in one direction.
pub enum FieldMap {
    /// Through the field type's own `MapPy` conversion.
    Recursive,
    /// Through the named converter function, called with the value and
    /// the interpreter token.
    Override(Seq<char>),
}

/// The converter override of a field that applies in a direction.
pub open spec fn override_of(f: FieldDecl, d: Direction) -> Option<String> {
    match d {
        Direction::ToBridge => f.map_into,
        Direction::FromBridge => f.map_from,
    }
}

/// How a field is converted in a direction: by its override when it has
/// one for that direction, else recursively.
pub open spec fn field_map(f: FieldDecl, d: Direction) -> FieldMap {
    match override_of(f, d) {
        Some(c) => FieldMap::Override(c@),
        None => FieldMap::Recursive,
    }
}

/// The initializer `name: <conversion of self.name>` for one field.
pub open spec fn field_text(f: FieldDecl, d: Direction) -> Seq<char> {
    let n = f.name@;
    n + ": "@ + match field_map(f, d) {
        FieldMap::Override(c) => "("@ + c + ")(self."@ + n + ", py)?"@,
        FieldMap::Recursive => "self."@ + n + ".map_py(py)?"@,
    }
}

/// The field initializers of `fs`, in order, separated by commas.
pub open spec fn fields_text(fs: Seq<FieldDecl>, d: Direction) -> Seq<char>
    decreases fs.len(),
{
    if fs.len() == 0 {
        Seq::empty()
    } else if fs.len() == 1 {
        field_text(fs[0], d)
    } else {
        fields_text(fs.drop_last(), d) + ", "@ + field_text(fs.last(), d)
    }
}

/// A struct literal of type `target` with one initializer per field.
pub open spec fn literal_text(target: Seq<char>, fs: Seq<FieldDecl>, d: Direction) -> Seq<char> {
    target + " { "@ + fields_text(fs, d) + " }"@
}

/// An impl of `MapPy<target>` for `source` whose conversion returns `Ok`
/// of the expression `body`.
pub open spec fn impl_text(source: Seq<char>, target: Seq<char>, body: Seq<char>) -> Seq<char> {
    "impl ::map_py::MapPy<"@ + target + "> for "@ + source
        + " {\n    fn map_py(self, py: ::pyo3::Python) -> ::pyo3::PyResult<"@ + target
        + "> {\n        Ok("@ + body + ")\n    }\n}\n"@
}

/// What is generated for a declaration: both conversion impls, native to
/// bridge first, or the error that stops generation.
pub open spec fn expansion(decl: Declaration) -> Result<Seq<char>, GenError> {
    match decl.map_type {
        None => Err(GenError::MissingMapType),
        Some(m) => {
            let native = decl.name@;
            let bridge = m@;
            match decl.shape {
                DeclShape::Named(fs) => if fs@.len() == 0 {
                    Err(GenError::UnitStruct)
                } else {
                    Ok(
                    impl_text(native, bridge, literal_text(bridge, fs@, Direction::ToBridge))
                        + impl_text(bridge, native, literal_text(native, fs@, Direction::FromBridge)),
                    )
                },
                DeclShape::Unnamed(n) => if n == 0 {
                    Err(GenError::UnitStruct)
                } else if n > 1 {
                    Err(GenError::TupleArity)
                } else {
                    Ok(impl_text(native, bridge, "self.0"@) + impl_text(bridge, native, native + "(self)"@))
                },
                DeclShape::Unit => Err(GenError::UnitStruct),
                DeclShape::Other => Err(GenError::NotAStruct),
            }
        },
    }
}

/// Emits the initializer of one field for one direction.
pub fn field_expr(f: &FieldDecl, d: Direction) -> (r: String)
    ensures
        r@ == field_text(*f, d),
{
    let conv = match d {
        Direction::ToBridge => &f.map_into,
        Direction::FromBridge => &f.map_from,
    };
    let mut s = f.name.clone();
    s.append(": ");
    match conv {
        Some(c) => {
            s.append("(");
            s.append(c.as_str());
            s.append(")(self.");
            s.append(f.name.as_str());
            s.append(", py)?");
        },
        None => {
            s.append("self.");
            s.append(f.name.as_str());
            s.append(".map_py(py)?");
        },
    }
    s
}

/// Emits a struct literal of type `target` that initializes each field of
/// `fields` by its conversion in direction `d`.
pub fn struct_literal(target: &str, fields: &Vec<FieldDecl>, d: Direction) -> (r: String)
    ensures
        r@ == literal_text(target@, fields@, d),
{
    let mut body = String::new();
    let mut i: usize = 0;
    while i < fields.len()
        invariant
            i <= fields@.len(),
            body@ == fields_text(fields@.subrange(0, i as int), d),
        decreases fields@.len() - i,
    {
        let e = field_expr(&fields[i], d);
        proof {
            let pre = fields@.subrange(0, i as int);
            let next = fields@.subrange(0, i + 1);
            assert(next.drop_last() =~= pre);
            assert(next.last() == fields@[i as int]);
        }
        if i > 0 {
            body.append(", ");
        }
        body.append(e.as_str());
        i = i + 1;
    }
    assert(fields@.subrange(0, fields@.len() as int) =~= fields@);
    let mut s = String::from_str(target);
    s.append(" { ");
    s.append(body.as_str());
    s.append(" }");
    s
}

/// Emits an impl of `MapPy<target>` for `source` that returns `Ok(body)`.
pub fn impl_block(source: &str, target: &str, body: &str) -> (r: String)
    ensures
        r@ == impl_text(source@, target@, body@),
{
    let mut s = String::from_str("impl ::map_py::MapPy<");
    s.append(target);
    s.append("> for ");
    s.append(source);
    s.append(" {\n    fn map_py(self, py: ::pyo3::Python) -> ::pyo3::PyResult<");
    s.append(target);
    s.append("> {\n        Ok(");
    s.append(body);
    s.append(")\n    }\n}\n");
    s
}

/// Generates both conversion impls for an annotated declaration: native to
/// bridge, then bridge to native. Fields are matched by name; a field's
/// override replaces its recursive conversion in that direction; a tuple
/// struct of one field passes its value through. A declaration without
/// fields, or a tuple struct of several, is rejected.
pub fn map_py_derive(decl: &Declaration) -> (r: Result<String, GenError>)
    ensures
        match r {
            Ok(s) => expansion(*decl) == Ok::<Seq<char>, GenError>(s@),
            Err(e) => expansion(*decl) == Err::<Seq<char>, GenError>(e),
        },
{
    let map_type = match &decl.map_type {
        Some(m) => m,
        None => {
            return Err(GenError::MissingMapType);
        },
    };
    let native = decl.name.as_str();
    let bridge = map_type.as_str();
    match &decl.shape {
        DeclShape::Named(fields) => {
            if fields.len() == 0 {
                return Err(GenError::UnitStruct);
            }
            let to_bridge = struct_literal(bridge, fields, Direction::ToBridge);
            let from_bridge = struct_literal(native, fields, Direction::FromBridge);
            let mut s = impl_block(native, bridge, to_bridge.as_str());
            let back = impl_block(bridge, native, from_bridge.as_str());
            s.append(back.as_str());
            Ok(s)
        },
        DeclShape::Unnamed(n) => {
            if *n == 0 {
                return Err(GenError::UnitStruct);
            }
            if *n > 1 {
                return Err(GenError::TupleArity);
            }
            let wrapped = String::from_str(native).concat("(self)");
            let mut s = impl_block(native, bridge, "self.0");
            let back = impl_block(bridge, native, wrapped.as_str());
            s.append(back.as_str());
            Ok(s)
        },
        DeclShape::Unit => Err(GenError::UnitStruct),
        DeclShape::Other => Err(GenError::NotAStruct),
    }
}

/// The field values of a record, in declaration order, after the generated
/// conversion in direction `d`: a field with an override for `d` becomes
/// `call(converter, value)`, the field at index `i` without one
/// `recurse(i, value)`, its own type's conversion.
pub open spec fn convert_fields<V>(
    fs: Seq<FieldDecl>,
    d: Direction,
    vals: Seq<V>,
    recurse: spec_fn(int, V) -> V,
    call: spec_fn(Seq<char>, V) -> V,
) -> Seq<V> {
    Seq::new(
        vals.len(),
        |i: int|
            match field_map(fs[i], d) {
                FieldMap::Override(c) => call(c, vals[i]),
                FieldMap::Recursive => recurse(i, vals[i]),
            },
    )
}

/// Round trip: when no field has an override, both generated conversions
/// convert every field through its own type's conversion; and when each of
/// those conversions to the bridge type is undone by the one back, the
/// generated conversion to the bridge type followed by the one back gives
/// the original field values. Each field has its own pair of conversions.
pub proof fn lemma_round_trip<V>(
    fs: Seq<FieldDecl>,
    vals: Seq<V>,
    to_bridge: spec_fn(int, V) -> V,
    from_bridge: spec_fn(int, V) -> V,
    call: spec_fn(Seq<char>, V) -> V,
)
    requires
        vals.len() == fs.len(),
        forall|i: int| 0 <= i < fs.len() ==> (#[trigger] fs[i]).map_from is None && fs[i].map_into is None,
        forall|i: int, v: V| 0 <= i < fs.len() ==> #[trigger] from_bridge(i, to_bridge(i, v)) == v,
    ensures
        forall|i: int|
            0 <= i < fs.len() ==> field_map(#[trigger] fs[i], Direction::ToBridge) == FieldMap::Recursive
                && field_map(fs[i], Direction::FromBridge) == FieldMap::Recursive,
        convert_fields(
            fs,
            Direction::FromBridge,
            convert_fields(fs, Direction::ToBridge, vals, to_bridge, call),
            from_bridge,
            call,
        ) == vals,
{
    let there = convert_fields(fs, Direction::ToBridge, vals, to_bridge, call);
    let back = convert_fields(fs, Direction::FromBridge, there, from_bridge, call);
    assert forall|i: int| 0 <= i < vals.len() implies back[i] == vals[i] by {
        assert(fs[i].map_from is None && fs[i].map_into is None);
        assert(there[i] == to_bridge(i, vals[i]));
    }
    assert(back =~= vals);
}

/// A field with an override for a direction is converted by that override
/// alone: its initializer calls the converter on the field's value, and the
/// field's converted value is the converter's, whatever the field type's own
/// conversion would give.
pub proof fn lemma_override_used<V>(
    fs: Seq<FieldDecl>,
    i: int,
    d: Direction,
    vals: Seq<V>,
    recurse: spec_fn(int, V) -> V,
    call: spec_fn(Seq<char>, V) -> V,
)
    requires
        0 <= i < fs.len(),
        i < vals.len(),
        override_of(fs[i], d) is Some,
    ensures
        ({
            let c = override_of(fs[i], d)->Some_0@;
            let n = fs[i].name@;
            &&& field_map(fs[i], d) == FieldMap::Override(c)
            &&& field_text(fs[i], d) == n + ": "@ + ("("@ + c + ")(self."@ + n + ", py)?"@)
            &&& convert_fields(fs, d, vals, recurse, call)[i] == call(c, vals[i])
        }),
{
}

} // verus!
