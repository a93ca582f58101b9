//! Typed OSC arguments, their type tags and their display text.
//!
//! Floating-point arguments are held as their IEEE-754 bit patterns; their
//! display text is produced where floats can be handled and handed in.
use vstd::prelude::*;
use vstd::string::StringExecFns;
use crate::text::{int_text, joined, push_int, push_joined};

verus! {

/// One OSC argument.
#[derive(Clone, Debug, PartialEq, Eq)]
pub enum Argument {
    Int32(i32),
    /// A 32-bit float, by its bit pattern.
    Float32(u32),
    /// A 64-bit float, by its bit pattern.
    Float64(u64),
    Str(String),
    Blob(Vec<u8>),
    Bool(bool),
    /// A decoded wire type that this tool does not display; the text names it.
    Unsupported(String),
}

/// The mathematical value of an [`Argument`].
pub enum ArgumentModel {
    Int32(i32),
    Float32(u32),
    Float64(u64),
    Str(Seq<char>),
    Blob(Seq<u8>),
    Bool(bool),
    Unsupported(Seq<char>),
}

impl View for Argument {
    type V = ArgumentModel;

    open spec fn view(&self) -> ArgumentModel {
        match self {
            Argument::Int32(v) => ArgumentModel::Int32(*v),
            Argument::Float32(b) => ArgumentModel::Float32(*b),
            Argument::Float64(b) => ArgumentModel::Float64(*b),
            Argument::Str(s) => ArgumentModel::Str(s@),
            Argument::Blob(b) => ArgumentModel::Blob(b@),
            Argument::Bool(b) => ArgumentModel::Bool(*b),
            Argument::Unsupported(s) => ArgumentModel::Unsupported(s@),
        }
    }
}

/// The models of a sequence of arguments.
pub open spec fn models(args: Seq<Argument>) -> Seq<ArgumentModel> {
    args.map_values(|a: Argument| a@)
}

/// The type tag of an argument; none for an unsupported one.
pub open spec fn tag_of(a: ArgumentModel) -> Option<char> {
    match a {
        ArgumentModel::Int32(_) => Some('i'),
        ArgumentModel::Float32(_) => Some('f'),
        ArgumentModel::Float64(_) => Some('f'),
        ArgumentModel::Str(_) => Some('s'),
        ArgumentModel::Blob(_) => Some('b'),
        ArgumentModel::Bool(_) => Some('i'),
        ArgumentModel::Unsupported(_) => None,
    }
}

pub open spec fn is_supported(a: ArgumentModel) -> bool {
    !(a is Unsupported)
}

pub open spec fn all_supported(args: Seq<ArgumentModel>) -> bool {
    forall|i: int| 0 <= i < args.len() ==> is_supported(#[trigger] args[i])
}

/// The type-tag string: one tag per argument, in order.
pub open spec fn tags_of(args: Seq<ArgumentModel>) -> Seq<char> {
    args.map_values(|a: ArgumentModel| tag_of(a).unwrap())
}

/// `args[i]` is the first unsupported argument.
pub open spec fn first_unsupported(args: Seq<ArgumentModel>, i: int) -> bool {
    &&& 0 <= i < args.len()
    &&& args[i] is Unsupported
    &&& all_supported(args.subrange(0, i))
}

/// A decoded argument type that has no display form here.
#[derive(Clone, Debug, PartialEq, Eq)]
pub struct UnsupportedArgumentType {
    /// What the decoder reported for the argument.
    pub name: String,
}

/// Display text of a byte blob: `[1, 2, 3]`.
pub open spec fn blob_text(b: Seq<u8>) -> Seq<char> {
    seq!['['] + joined(b.map_values(|x: u8| int_text(x as int)), seq![',', ' ']) + seq![']']
}

/// Display text of a supported argument; a float shows as `float_text`.
pub open spec fn argument_text(a: ArgumentModel, float_text: Seq<char>) -> Seq<char> {
    match a {
        ArgumentModel::Int32(v) => int_text(v as int),
        ArgumentModel::Float32(_) => float_text,
        ArgumentModel::Float64(_) => float_text,
        ArgumentModel::Str(s) => s,
        ArgumentModel::Blob(b) => blob_text(b),
        ArgumentModel::Bool(b) => if b {
            seq!['t', 'r', 'u', 'e']
        } else {
            seq!['f', 'a', 'l', 's', 'e']
        },
        ArgumentModel::Unsupported(_) => Seq::empty(),
    }
}

impl Argument {
    /// The type tag of this argument, or `None` when it is unsupported.
    pub fn type_tag(&self) -> (r: Option<char>)
        ensures
            r == tag_of(self@),
    {
        match self {
            Argument::Int32(_) => Some('i'),
            Argument::Float32(_) => Some('f'),
            Argument::Float64(_) => Some('f'),
            Argument::Str(_) => Some('s'),
            Argument::Blob(_) => Some('b'),
            Argument::Bool(_) => Some('i'),
            Argument::Unsupported(_) => None,
        }
    }

    /// Display text of this argument; floats show as `float_text`.
    /// `None` exactly when the argument is unsupported.
    pub fn display_text(&self, float_text: &str) -> (r: Option<String>)
        ensures
            r is None <==> self@ is Unsupported,
            r matches Some(s) ==> s@ == argument_text(self@, float_text@),
    {
        match self {
            Argument::Int32(v) => {
                let mut s = String::new();
                push_int(&mut s, *v);
                assert(s@ =~= int_text(*v as int));
                Some(s)
            },
            Argument::Float32(_) | Argument::Float64(_) => Some(String::from_str(float_text)),
            Argument::Str(s) => Some(s.clone()),
            Argument::Blob(b) => Some(blob_display(b)),
            Argument::Bool(b) => {
                proof {
                    reveal_strlit("true");
                    reveal_strlit("false");
                }
                if *b {
                    let s = String::from_str("true");
                    assert(s@ =~= seq!['t', 'r', 'u', 'e']);
                    Some(s)
                } else {
                    let s = String::from_str("false");
                    assert(s@ =~= seq!['f', 'a', 'l', 's', 'e']);
                    Some(s)
                }
            },
            Argument::Unsupported(_) => None,
        }
    }
}

fn blob_display(b: &Vec<u8>) -> (r: String)
    ensures
        r@ == blob_text(b@),
{
    let mut items: Vec<String> = Vec::new();
    let mut i: usize = 0;
    while i < b.len()
        invariant
            i <= b@.len(),
            items@.len() == i,
            forall|k: int| 0 <= k < i ==> #[trigger] items@[k]@ == int_text(b@[k] as int),
        decreases b@.len() - i,
    {
        let mut s = String::new();
        push_int(&mut s, b[i] as i32);
        assert(s@ =~= int_text(b@[i as int] as int));
        items.push(s);
        i = i + 1;
    }
    proof {
        reveal_strlit("[");
        reveal_strlit(", ");
        reveal_strlit("]");
    }
    let mut r = String::from_str("[");
    push_joined(&mut r, &items, ", ");
    r.append("]");
    proof {
        let texts = b@.map_values(|x: u8| int_text(x as int));
        assert(items@.map_values(|s: String| s@) =~= texts);
        assert("["@ =~= seq!['[']);
        assert(", "@ =~= seq![',', ' ']);
        assert("]"@ =~= seq![']']);
        assert(r@ =~= seq!['['] + joined(texts, seq![',', ' ']) + seq![']']);
    }
    r
}

/// The type-tag string of `args`, or the first unsupported argument.
pub fn type_tags(args: &Vec<Argument>) -> (r: Result<String, UnsupportedArgumentType>)
    ensures
        r is Ok <==> all_supported(models(args@)),
        r matches Ok(s) ==> s@ == tags_of(models(args@)),
        r matches Err(e) ==> exists|i: int|
            first_unsupported(models(args@), i) && models(args@)[i] == ArgumentModel::Unsupported(
                e.name@,
            ),
{
    let ghost m = models(args@);
    let mut out = String::new();
    let mut i: usize = 0;
    while i < args.len()
        invariant
            i <= args@.len(),
            m == models(args@),
            all_supported(m.subrange(0, i as int)),
            out@ == tags_of(m.subrange(0, i as int)),
        decreases args@.len() - i,
    {
        match &args[i] {
            Argument::Unsupported(name) => {
                assert(first_unsupported(m, i as int));
                return Err(UnsupportedArgumentType { name: name.clone() });
            },
            _ => {},
        }
        let c = args[i].type_tag().unwrap();
        push_tag(&mut out, c);
        proof {
            assert(m.subrange(0, i + 1) =~= m.subrange(0, i as int).push(m[i as int]));
            assert(tags_of(m.subrange(0, i + 1)) =~= tags_of(m.subrange(0, i as int)).push(c));
        }
        i = i + 1;
    }
    assert(m.subrange(0, args@.len() as int) =~= m);
    Ok(out)
}

fn push_tag(out: &mut String, c: char)
    requires
        c == 'i' || c == 'f' || c == 's' || c == 'b',
    ensures
        final(out)@ == old(out)@.push(c),
{
    proof {
        reveal_strlit("i");
        reveal_strlit("f");
        reveal_strlit("s");
        reveal_strlit("b");
    }
    let s = if c == 'i' {
        "i"
    } else if c == 'f' {
        "f"
    } else if c == 's' {
        "s"
    } else {
        "b"
    };
    out.append(s);
    assert(final(out)@ =~= old(out)@.push(c));
}

} // verus!
