//! A plain-value model of the Rust syntax that the macros read,
//! with the helpers that pick identifiers and type arguments out of it.

use vstd::prelude::*;

verus! {

/// The message of an error when an identifier was expected.
pub const EXPECTED_IDENT: &'static str = "expected identifier";

/// An error of the macros: one or more messages, in the order they were raised.
pub struct SynError {
    pub messages: Vec<String>,
}

impl SynError {
    /// The messages of this error, as sequences of characters.
    pub open spec fn message_views(&self) -> Seq<Seq<char>> {
        self.messages@.map_values(|m: String| m@)
    }

    /// An error with a single message.
    pub fn new(message: &str) -> (e: SynError)
        ensures
            e.message_views() == seq![message@],
    {
        let mut messages: Vec<String> = Vec::new();
        messages.push(String::from_str(message));
        let e = SynError { messages };
        assert(e.message_views() =~= seq![message@]);
        e
    }

    /// Add the messages of another error after the messages of this one.
    pub fn combine(&mut self, other: SynError)
        ensures
            final(self).message_views() == old(self).message_views() + other.message_views(),
    {
        let mut other = other;
        let ghost before = self.message_views();
        let ghost added = other.message_views();
        self.messages.append(&mut other.messages);
        assert(self.message_views() =~= before + added);
    }
}

/// A generic argument in angle brackets: a type, or anything else (a lifetime, a constant, ...)
/// as its Rust source.
pub enum GenericArgument {
    Type(Type),
    Other(String),
}

/// The arguments of a path segment.
pub enum PathArguments {
    /// `ident`
    Bare,
    /// `ident<A, B>`
    AngleBracketed(Vec<GenericArgument>),
    /// `ident(A) -> B`, with the Rust source of `(A) -> B`
    Parenthesized(String),
}

/// A segment of a path: `ident` with its arguments.
pub struct PathSegment {
    pub ident: String,
    pub arguments: PathArguments,
}

/// The qualified self type of a path, as `T` in `<T as Trait>::Assoc`.
pub struct QSelf {
    pub ty: Box<Type>,
    /// how many segments of the path name the trait
    pub position: usize,
}

/// A type written as a path, such as `std::vec::Vec<u8>`.
pub struct TypePath {
    /// the qualified self type, as in `<T as Trait>::Assoc`
    pub qself: Option<QSelf>,
    /// the path starts with `::`
    pub leading_colon: bool,
    pub segments: Vec<PathSegment>,
}

/// A type: a path, or any other form of type as its Rust source.
pub enum Type {
    Path(TypePath),
    Other(String),
}

/// Two types are written the same: the same paths, segment by segment; other types by their
/// source.
pub open spec fn same_type(a: Type, b: Type) -> bool
    decreases a,
{
    match (a, b) {
        (Type::Path(p), Type::Path(q)) => same_type_path(p, q),
        (Type::Other(x), Type::Other(y)) => x@ == y@,
        _ => false,
    }
}

/// Two path types are written the same.
pub open spec fn same_type_path(p: TypePath, q: TypePath) -> bool
    decreases p,
{
    &&& p.leading_colon == q.leading_colon
    &&& match (p.qself, q.qself) {
        (None, None) => true,
        (Some(x), Some(y)) => x.position == y.position && same_type(*x.ty, *y.ty),
        _ => false,
    }
    &&& same_segments(p.segments@, q.segments@)
}

/// Two sequences of path segments are written the same.
pub open spec fn same_segments(s: Seq<PathSegment>, t: Seq<PathSegment>) -> bool
    decreases s,
{
    &&& s.len() == t.len()
    &&& forall|i: int| 0 <= i < s.len() ==> same_segment(#[trigger] s[i], t[i])
}

/// Two path segments are written the same.
pub open spec fn same_segment(s: PathSegment, t: PathSegment) -> bool
    decreases s,
{
    &&& s.ident@ == t.ident@
    &&& match (s.arguments, t.arguments) {
        (PathArguments::Bare, PathArguments::Bare) => true,
        (PathArguments::Parenthesized(x), PathArguments::Parenthesized(y)) => x@ == y@,
        (PathArguments::AngleBracketed(x), PathArguments::AngleBracketed(y)) => same_arguments(
            x@,
            y@,
        ),
        _ => false,
    }
}

/// Two sequences of generic arguments are written the same.
pub open spec fn same_arguments(x: Seq<GenericArgument>, y: Seq<GenericArgument>) -> bool
    decreases x,
{
    &&& x.len() == y.len()
    &&& forall|i: int| 0 <= i < x.len() ==> same_argument(#[trigger] x[i], y[i])
}

/// Two generic arguments are written the same.
pub open spec fn same_argument(a: GenericArgument, b: GenericArgument) -> bool
    decreases a,
{
    match (a, b) {
        (GenericArgument::Type(s), GenericArgument::Type(t)) => same_type(s, t),
        (GenericArgument::Other(x), GenericArgument::Other(y)) => x@ == y@,
        _ => false,
    }
}

/// Whether two types are written the same.
pub fn type_eq(a: &Type, b: &Type) -> (r: bool)
    ensures
        r == same_type(*a, *b),
    decreases a,
{
    match (a, b) {
        (Type::Path(p), Type::Path(q)) => type_path_eq(p, q),
        (Type::Other(x), Type::Other(y)) => *x == *y,
        _ => false,
    }
}

/// Whether two path types are written the same.
pub fn type_path_eq(p: &TypePath, q: &TypePath) -> (r: bool)
    ensures
        r == same_type_path(*p, *q),
    decreases p,
{
    if p.leading_colon != q.leading_colon {
        return false;
    }
    let qself = match (&p.qself, &q.qself) {
        (None, None) => true,
        (Some(x), Some(y)) => x.position == y.position && type_eq(&x.ty, &y.ty),
        _ => false,
    };
    qself && segments_eq(&p.segments, &q.segments)
}

fn segments_eq(s: &Vec<PathSegment>, t: &Vec<PathSegment>) -> (r: bool)
    ensures
        r == same_segments(s@, t@),
    decreases s,
{
    if s.len() != t.len() {
        return false;
    }
    let n = s.len();
    for i in 0..n
        invariant
            n == s@.len(),
            n == t@.len(),
            forall|k: int| 0 <= k < i ==> same_segment(#[trigger] s@[k], t@[k]),
    {
        proof {
            assert(decreases_to!(s => s@[i as int]));
        }
        let x = &s[i];
        let y = &t[i];
        if x.ident != y.ident {
            return false;
        }
        let same = match (&x.arguments, &y.arguments) {
            (PathArguments::Bare, PathArguments::Bare) => true,
            (PathArguments::Parenthesized(x), PathArguments::Parenthesized(y)) => *x == *y,
            (PathArguments::AngleBracketed(u), PathArguments::AngleBracketed(v)) => arguments_eq(
                u,
                v,
            ),
            _ => false,
        };
        if !same {
            return false;
        }
    }
    true
}

fn arguments_eq(x: &Vec<GenericArgument>, y: &Vec<GenericArgument>) -> (r: bool)
    ensures
        r == same_arguments(x@, y@),
    decreases x,
{
    if x.len() != y.len() {
        return false;
    }
    let n = x.len();
    for i in 0..n
        invariant
            n == x@.len(),
            n == y@.len(),
            forall|k: int| 0 <= k < i ==> same_argument(#[trigger] x@[k], y@[k]),
    {
        proof {
            assert(decreases_to!(x => x@[i as int]));
        }
        let same = match (&x[i], &y[i]) {
            (GenericArgument::Type(s), GenericArgument::Type(t)) => type_eq(s, t),
            (GenericArgument::Other(u), GenericArgument::Other(v)) => *u == *v,
            _ => false,
        };
        if !same {
            return false;
        }
    }
    true
}

/// A copy of a type.
pub fn clone_type(ty: &Type) -> (r: Type)
    ensures
        same_type(*ty, r),
    decreases ty,
{
    match ty {
        Type::Path(path) => Type::Path(clone_type_path(path)),
        Type::Other(source) => Type::Other(source.clone()),
    }
}

/// A copy of a path type.
pub fn clone_type_path(path: &TypePath) -> (r: TypePath)
    ensures
        same_type_path(*path, r),
    decreases path,
{
    let qself = match &path.qself {
        Some(q) => Some(QSelf { ty: Box::new(clone_type(&q.ty)), position: q.position }),
        None => None,
    };
    let segments = clone_segments(&path.segments);
    TypePath { qself, leading_colon: path.leading_colon, segments }
}

fn clone_segments(segments: &Vec<PathSegment>) -> (r: Vec<PathSegment>)
    ensures
        same_segments(segments@, r@),
    decreases segments,
{
    let mut r: Vec<PathSegment> = Vec::new();
    let n = segments.len();
    for i in 0..n
        invariant
            n == segments@.len(),
            r@.len() == i,
            forall|k: int| 0 <= k < i ==> same_segment(#[trigger] segments@[k], r@[k]),
    {
        proof {
            assert(decreases_to!(segments => segments@[i as int]));
        }
        let segment = &segments[i];
        let arguments = match &segment.arguments {
            PathArguments::Bare => PathArguments::Bare,
            PathArguments::AngleBracketed(args) => PathArguments::AngleBracketed(
                clone_generic_arguments(args),
            ),
            PathArguments::Parenthesized(source) => PathArguments::Parenthesized(source.clone()),
        };
        r.push(PathSegment { ident: segment.ident.clone(), arguments });
    }
    r
}

fn clone_generic_arguments(args: &Vec<GenericArgument>) -> (r: Vec<GenericArgument>)
    ensures
        same_arguments(args@, r@),
    decreases args,
{
    let mut r: Vec<GenericArgument> = Vec::new();
    let n = args.len();
    for i in 0..n
        invariant
            n == args@.len(),
            r@.len() == i,
            forall|k: int| 0 <= k < i ==> same_argument(#[trigger] args@[k], r@[k]),
    {
        proof {
            assert(decreases_to!(args => args@[i as int]));
        }
        let arg = match &args[i] {
            GenericArgument::Type(ty) => GenericArgument::Type(clone_type(ty)),
            GenericArgument::Other(source) => GenericArgument::Other(source.clone()),
        };
        r.push(arg);
    }
    r
}

/// The only element of a punctuated list, if it has exactly one.
pub fn parse_exactly_one_punctuated<T>(punctuated: &Vec<T>) -> (r: Option<&T>)
    ensures
        r == (if punctuated@.len() == 1 { Some(&punctuated@[0]) } else { None::<&T> }),
{
    if punctuated.len() == 1 {
        Some(&punctuated[0])
    } else {
        None
    }
}

/// The segments of a path type without a qualified self type or a leading `::`.
pub fn parse_path_segments_from_type_path(path: &TypePath) -> (r: Option<&Vec<PathSegment>>)
    ensures
        r == (if path.qself is None && !path.leading_colon {
            Some(&path.segments)
        } else {
            None::<&Vec<PathSegment>>
        }),
{
    if path.qself.is_none() && !path.leading_colon {
        Some(&path.segments)
    } else {
        None
    }
}

/// The segments of a type, when it is a plain path.
pub open spec fn spec_path_segments_from_type(ty: Type) -> Option<Vec<PathSegment>> {
    match ty {
        Type::Path(path) => if path.qself is None && !path.leading_colon {
            Some(path.segments)
        } else {
            None
        },
        Type::Other(_) => None,
    }
}

/// The segments of a type, when it is a plain path.
pub fn parse_path_segments_from_type(ty: &Type) -> (r: Option<&Vec<PathSegment>>)
    ensures
        match r {
            Some(segments) => spec_path_segments_from_type(*ty) == Some(*segments),
            None => spec_path_segments_from_type(*ty) is None,
        },
{
    match ty {
        Type::Path(path) => parse_path_segments_from_type_path(path),
        Type::Other(_) => None,
    }
}

/// The identifier of a path of exactly one segment without arguments.
pub open spec fn spec_ident_from_path_segments(segments: Seq<PathSegment>) -> Option<String> {
    if segments.len() == 1 && segments[0].arguments is Bare {
        Some(segments[0].ident)
    } else {
        None
    }
}

/// The identifier of a path of exactly one segment without arguments;
/// otherwise the error "expected identifier".
pub fn parse_ident_from_path_segments(path_segments: &Vec<PathSegment>) -> (r: Result<
    &String,
    SynError,
>)
    ensures
        match r {
            Ok(ident) => spec_ident_from_path_segments(path_segments@) == Some(*ident),
            Err(e) => spec_ident_from_path_segments(path_segments@) is None
                && e.message_views() == seq![EXPECTED_IDENT@],
        },
{
    match parse_exactly_one_punctuated(path_segments) {
        Some(segment) => match segment.arguments {
            PathArguments::Bare => Ok(&segment.ident),
            _ => Err(SynError::new(EXPECTED_IDENT)),
        },
        None => Err(SynError::new(EXPECTED_IDENT)),
    }
}

/// The identifier that a type is made of, if it is a plain single-segment path.
pub open spec fn spec_ident_from_type(ty: Type) -> Option<String> {
    match spec_path_segments_from_type(ty) {
        Some(segments) => spec_ident_from_path_segments(segments@),
        None => None,
    }
}

/// The identifier that a type is made of; otherwise the error "expected identifier".
pub fn parse_ident_from_type(ty: &Type) -> (r: Result<&String, SynError>)
    ensures
        match r {
            Ok(ident) => spec_ident_from_type(*ty) == Some(*ident),
            Err(e) => spec_ident_from_type(*ty) is None && e.message_views()
                == seq![EXPECTED_IDENT@],
        },
{
    match parse_path_segments_from_type(ty) {
        Some(segments) => parse_ident_from_path_segments(segments),
        None => Err(SynError::new(EXPECTED_IDENT)),
    }
}

/// For a path of exactly one segment with exactly one type in angle brackets,
/// such as `Vec<T>`: the identifier and the type argument.
pub open spec fn spec_type_single_arg_from_path_segments(segments: Seq<PathSegment>) -> Option<
    (String, Type),
> {
    if segments.len() == 1 {
        match segments[0].arguments {
            PathArguments::AngleBracketed(args) => if args@.len() == 1 {
                match args@[0] {
                    GenericArgument::Type(ty) => Some((segments[0].ident, ty)),
                    GenericArgument::Other(_) => None,
                }
            } else {
                None
            },
            _ => None,
        }
    } else {
        None
    }
}

/// For a path of exactly one segment with exactly one type in angle brackets,
/// such as `Vec<T>`: the identifier and the type argument.
pub fn parse_type_single_arg_from_path_segments(path_segments: &Vec<PathSegment>) -> (r: Option<
    (&String, &Type),
>)
    ensures
        match r {
            Some((ident, ty)) => spec_type_single_arg_from_path_segments(path_segments@) == Some(
                (*ident, *ty),
            ),
            None => spec_type_single_arg_from_path_segments(path_segments@) is None,
        },
{
    let segment = match parse_exactly_one_punctuated(path_segments) {
        Some(segment) => segment,
        None => return None,
    };
    let args = match &segment.arguments {
        PathArguments::AngleBracketed(args) => args,
        _ => return None,
    };
    match parse_exactly_one_punctuated(args) {
        Some(GenericArgument::Type(ty)) => Some((&segment.ident, ty)),
        _ => None,
    }
}

/// An attribute argument written as Rust syntax rather than as a quoted string,
/// like `function(a::b::c)` instead of `function = "a::b::c"`.
pub struct TokenStreamAttr<T>(pub T);

impl<T> TokenStreamAttr<T> {
    pub fn into_inner(self) -> (r: T)
        ensures
            r == self.0,
    {
        self.0
    }
}

/// Like [`TokenStreamAttr<T>`] but for an argument that may be given as a bare word.
pub struct TokenStreamAttrOption<T>(pub Option<T>);

impl<T> TokenStreamAttrOption<T> {
    pub fn into_inner(self) -> (r: Option<T>)
        ensures
            r == self.0,
    {
        self.0
    }
}

} // verus!
