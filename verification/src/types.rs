//! Type expressions as they are written on a record's fields.

use vstd::prelude::*;
use vstd::string::StringExecFns;
use crate::text::joined;

verus! {

/// The type written on a field.
#[derive(Debug, PartialEq, Eq)]
pub enum TypeExpr {
    /// A named type path such as `String` or `std::option::Option<u8>`.
    Path(TypePath),
    /// Any other shape (a reference, a tuple, an array, a function type, ...),
    /// kept as it was written.
    Other(String),
}

/// A named type path: segments separated by `::`.
#[derive(Debug, PartialEq, Eq)]
pub struct TypePath {
    /// Whether the path starts with `::`.
    pub global: bool,
    /// The segments, outermost last.
    pub segments: Vec<PathSegment>,
}

/// One segment of a type path: an identifier and what is written behind it.
#[derive(Debug, PartialEq, Eq)]
pub struct PathSegment {
    pub ident: String,
    pub args: SegmentArgs,
}

/// What is written behind the identifier of a path segment.
#[derive(Debug, PartialEq, Eq)]
pub enum SegmentArgs {
    /// Nothing, as in `String`.
    Absent,
    /// Generic arguments between `<` and `>`, as in `Vec<u8>`.
    Angle(Vec<GenericArg>),
    /// The inputs and output of a function-like segment, as in
    /// `Fn(u8) -> bool`, kept as written.
    Function(String),
}

/// One generic argument of a path segment.
#[derive(Debug, PartialEq, Eq)]
pub enum GenericArg {
    /// A type argument.
    Type(TypeExpr),
    /// Any other argument (a lifetime, a constant, a binding), kept as written.
    Other(String),
}

/// The name of the reserved wrapper that marks a field as optional.
pub open spec fn optional_wrapper() -> Seq<char> {
    "Option"@
}

impl TypeExpr {
    /// Whether this is a named type path with at least one segment.
    pub open spec fn is_named_path(self) -> bool {
        self matches TypeExpr::Path(p) && p.segments@.len() > 0
    }

    /// The outermost segment of a named type path: the last one written.
    pub open spec fn outermost(self) -> PathSegment
        recommends
            self.is_named_path(),
    {
        self->Path_0.segments@.last()
    }

    /// Whether the outermost segment is named like the optional wrapper.
    /// Only the identifier is compared: any type of that name counts.
    pub open spec fn wraps_optional(self) -> bool {
        self.is_named_path() && self.outermost().ident@ == optional_wrapper()
    }

    /// The first generic argument of the outermost segment, where it is a type.
    pub open spec fn first_type_arg(self) -> Option<TypeExpr> {
        if self.is_named_path() {
            self.outermost().first_type_arg()
        } else {
            None
        }
    }

    /// Whether a field of this type can be classified: the type is a named
    /// path, and where it is named like the optional wrapper its first
    /// generic argument is a type.
    pub open spec fn supported(self) -> bool {
        self.is_named_path() && (self.wraps_optional() ==> self.first_type_arg() is Some)
    }

    /// The outermost segment, where this is a named type path.
    pub fn outermost_segment(&self) -> (r: Option<&PathSegment>)
        ensures
            r is Some <==> self.is_named_path(),
            r matches Some(seg) ==> *seg == self.outermost(),
    {
        match self {
            TypeExpr::Path(p) => {
                let n = p.segments.len();
                if n == 0 {
                    None
                } else {
                    Some(&p.segments[n - 1])
                }
            },
            TypeExpr::Other(_) => None,
        }
    }

    /// The source text of this type.
    pub open spec fn text(self) -> Seq<char>
        decreases self,
    {
        match self {
            TypeExpr::Path(p) => p.text(),
            TypeExpr::Other(s) => s@,
        }
    }

    /// Appends the source text of this type to `out`.
    pub fn write_to(&self, out: &mut String)
        ensures
            final(out)@ == old(out)@ + self.text(),
        decreases self,
    {
        match self {
            TypeExpr::Path(p) => {
                p.write_to(out);
            },
            TypeExpr::Other(s) => {
                out.append(s.as_str());
            },
        }
    }

    /// The source text of this type.
    pub fn to_text(&self) -> (r: String)
        ensures
            r@ == self.text(),
    {
        let mut out = String::new();
        self.write_to(&mut out);
        out
    }
}

impl TypePath {
    /// The source texts of the segments, in order.
    pub open spec fn segment_texts(self) -> Seq<Seq<char>>
        decreases self, 0nat,
    {
        Seq::new(
            self.segments@.len(),
            |i: int|
                if 0 <= i < self.segments@.len() {
                    self.segments@[i].text()
                } else {
                    Seq::empty()
                },
        )
    }

    /// The source text of this path: `::` first where it is global, then the
    /// segments with `::` between them.
    pub open spec fn text(self) -> Seq<char>
        decreases self, 1nat,
    {
        (if self.global {
            "::"@
        } else {
            Seq::empty()
        }) + joined(self.segment_texts(), "::"@)
    }

    /// Appends the source text of this path to `out`.
    pub fn write_to(&self, out: &mut String)
        ensures
            final(out)@ == old(out)@ + self.text(),
        decreases self,
    {
        if self.global {
            out.append("::");
        }
        let ghost start = out@;
        let ghost texts = self.segment_texts();
        let n = self.segments.len();
        let mut i: usize = 0;
        while i < n
            invariant
                i <= n,
                n == self.segments@.len(),
                texts == self.segment_texts(),
                out@ == start + joined(texts.take(i as int), "::"@),
            decreases n - i,
        {
            if i > 0 {
                out.append("::");
            }
            self.segments[i].write_to(out);
            proof {
                assert(texts.take(i + 1).drop_last() =~= texts.take(i as int));
            }
            i += 1;
        }
        proof {
            assert(texts.take(n as int) =~= texts);
        }
    }
}

impl PathSegment {
    /// Whether this segment is named like the optional wrapper.
    pub fn is_optional_wrapper(&self) -> (r: bool)
        ensures
            r == (self.ident@ == optional_wrapper()),
    {
        let wrapper = String::from_str("Option");
        self.ident == wrapper
    }

    /// The first generic argument, where there is one and it is a type.
    pub open spec fn first_type_arg(self) -> Option<TypeExpr> {
        match self.args {
            SegmentArgs::Angle(args) => if args@.len() > 0 {
                match args@[0] {
                    GenericArg::Type(t) => Some(t),
                    GenericArg::Other(_) => None,
                }
            } else {
                None
            },
            _ => None,
        }
    }

    /// The first generic argument, where there is one and it is a type.
    pub fn first_type_argument(&self) -> (r: Option<&TypeExpr>)
        ensures
            r is Some <==> self.first_type_arg() is Some,
            r matches Some(t) ==> self.first_type_arg() == Some(*t),
    {
        match &self.args {
            SegmentArgs::Angle(args) => {
                if args.len() == 0 {
                    None
                } else {
                    match &args[0] {
                        GenericArg::Type(t) => Some(t),
                        GenericArg::Other(_) => None,
                    }
                }
            },
            _ => None,
        }
    }

    /// The source text of this segment: the identifier, then what is written
    /// behind it.
    pub open spec fn text(self) -> Seq<char>
        decreases self, 1nat,
    {
        self.ident@ + self.args.text()
    }

    /// Appends the source text of this segment to `out`.
    pub fn write_to(&self, out: &mut String)
        ensures
            final(out)@ == old(out)@ + self.text(),
        decreases self,
    {
        out.append(self.ident.as_str());
        self.args.write_to(out);
    }
}

impl SegmentArgs {
    /// The source texts of generic arguments, in order.
    pub open spec fn arg_texts(args: Vec<GenericArg>) -> Seq<Seq<char>>
        decreases args,
    {
        Seq::new(
            args@.len(),
            |i: int|
                if 0 <= i < args@.len() {
                    args@[i].text()
                } else {
                    Seq::empty()
                },
        )
    }

    /// The source text of what is written behind a segment's identifier:
    /// generic arguments stand between `<` and `>` with `, ` between them.
    pub open spec fn text(self) -> Seq<char>
        decreases self, 0nat,
    {
        match self {
            SegmentArgs::Absent => Seq::empty(),
            SegmentArgs::Angle(args) => "<"@ + joined(Self::arg_texts(args), ", "@) + ">"@,
            SegmentArgs::Function(s) => s@,
        }
    }

    /// Appends the source text of these arguments to `out`.
    #[verifier::loop_isolation(false)]
    pub fn write_to(&self, out: &mut String)
        ensures
            final(out)@ == old(out)@ + self.text(),
        decreases self,
    {
        match self {
            SegmentArgs::Absent => {},
            SegmentArgs::Angle(args) => {
                out.append("<");
                let ghost start = out@;
                let ghost texts = Self::arg_texts(*args);
                let n = args.len();
                let mut i: usize = 0;
                while i < n
                    invariant
                        i <= n,
                        n == args@.len(),
                        texts == Self::arg_texts(*args),
                        out@ == start + joined(texts.take(i as int), ", "@),
                    decreases n - i,
                {
                    if i > 0 {
                        out.append(", ");
                    }
                    args[i].write_to(out);
                    proof {
                        assert(texts.take(i + 1).drop_last() =~= texts.take(i as int));
                    }
                    i += 1;
                }
                out.append(">");
                proof {
                    assert(texts.take(n as int) =~= texts);
                }
            },
            SegmentArgs::Function(s) => {
                out.append(s.as_str());
            },
        }
    }
}

impl GenericArg {
    /// The source text of this argument.
    pub open spec fn text(self) -> Seq<char>
        decreases self,
    {
        match self {
            GenericArg::Type(t) => t.text(),
            GenericArg::Other(s) => s@,
        }
    }

    /// Appends the source text of this argument to `out`.
    pub fn write_to(&self, out: &mut String)
        ensures
            final(out)@ == old(out)@ + self.text(),
        decreases self,
    {
        match self {
            GenericArg::Type(t) => {
                t.write_to(out);
            },
            GenericArg::Other(s) => {
                out.append(s.as_str());
            },
        }
    }
}

} // verus!
