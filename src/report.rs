//! The lines printed for sent, received and sampled messages.
use vstd::prelude::*;
use vstd::string::StringExecFns;
use crate::argument::{
    all_supported, argument_text, first_unsupported, models, tags_of, type_tags, Argument,
    ArgumentModel, UnsupportedArgumentType,
};
use crate::text::{joined, push_joined};

verus! {

/// The views of a list of strings.
pub open spec fn views(v: Seq<String>) -> Seq<Seq<char>> {
    v.map_values(|s: String| s@)
}

/// The display text of each argument; `float_texts[i]` stands for argument
/// `i` where it is a float.
pub open spec fn argument_texts(args: Seq<ArgumentModel>, float_texts: Seq<Seq<char>>) -> Seq<
    Seq<char>,
> {
    Seq::new(args.len(), |i: int| argument_text(args[i], float_texts[i]))
}

/// `[<stamp>] <addr>`
pub open spec fn line_head(stamp: Seq<char>, addr: Seq<char>) -> Seq<char> {
    "["@ + stamp + "] "@ + addr
}

/// ` (type tags: <tags>)`
pub open spec fn tags_section(tags: Seq<char>) -> Seq<char> {
    " (type tags: "@ + tags + ")"@
}

/// The line for a received message: the head, then the argument texts and
/// the type-tag section, both left out when there are no arguments.
pub open spec fn message_line_text(
    stamp: Seq<char>,
    addr: Seq<char>,
    texts: Seq<Seq<char>>,
    tags: Seq<char>,
) -> Seq<char> {
    if texts.len() == 0 {
        line_head(stamp, addr)
    } else {
        line_head(stamp, addr) + " "@ + joined(texts, " "@) + tags_section(tags)
    }
}

/// The line confirming a sent message: the head, the tokens as given, and
/// the type-tag section.
pub open spec fn sent_line_text(
    stamp: Seq<char>,
    addr: Seq<char>,
    tokens: Seq<Seq<char>>,
    tags: Seq<char>,
) -> Seq<char> {
    line_head(stamp, addr) + " "@ + joined(tokens, " "@) + tags_section(tags)
}

/// The line for one sampled value.
pub open spec fn sample_line_text(stamp: Seq<char>, addr: Seq<char>, value: Seq<char>) -> Seq<
    char,
> {
    line_head(stamp, addr) + " "@ + value
}

/// The line for a received bundle.
pub open spec fn bundle_line_text(bundle: Seq<char>) -> Seq<char> {
    "Received a bundle: "@ + bundle
}

/// A message with no arguments prints as its head alone.
pub proof fn lemma_empty_message_line(stamp: Seq<char>, addr: Seq<char>, tags: Seq<char>)
    ensures
        message_line_text(stamp, addr, Seq::empty(), tags) == "["@ + stamp + "] "@ + addr,
{
}

fn head(stamp: &str, addr: &str) -> (r: String)
    ensures
        r@ == line_head(stamp@, addr@),
{
    let mut r = String::from_str("[");
    r.append(stamp);
    r.append("] ");
    r.append(addr);
    r
}

fn push_tags_section(out: &mut String, tags: &str)
    ensures
        final(out)@ == old(out)@ + tags_section(tags@),
{
    out.append(" (type tags: ");
    out.append(tags);
    out.append(")");
    assert(final(out)@ =~= old(out)@ + tags_section(tags@));
}

/// The line printed for a received message. `float_texts[i]` is the display
/// text of argument `i` where it is a float. Fails on the first argument of
/// an unsupported type.
pub fn message_line(stamp: &str, addr: &str, args: &Vec<Argument>, float_texts: &Vec<String>) -> (r:
    Result<String, UnsupportedArgumentType>)
    requires
        float_texts@.len() == args@.len(),
    ensures
        r is Ok <==> all_supported(models(args@)),
        r matches Ok(s) ==> s@ == message_line_text(
            stamp@,
            addr@,
            argument_texts(models(args@), views(float_texts@)),
            tags_of(models(args@)),
        ),
        r matches Err(e) ==> exists|i: int|
            first_unsupported(models(args@), i) && models(args@)[i] == ArgumentModel::Unsupported(
                e.name@,
            ),
{
    let ghost m = models(args@);
    let ghost texts_spec = argument_texts(m, views(float_texts@));
    let mut line = head(stamp, addr);
    if args.len() == 0 {
        assert(texts_spec.len() == 0);
        return Ok(line);
    }
    let tags = match type_tags(args) {
        Ok(t) => t,
        Err(e) => {
            return Err(e);
        },
    };
    let mut texts: Vec<String> = Vec::new();
    let mut i: usize = 0;
    while i < args.len()
        invariant
            i <= args@.len(),
            float_texts@.len() == args@.len(),
            m == models(args@),
            all_supported(m),
            texts_spec == argument_texts(m, views(float_texts@)),
            texts@.len() == i,
            forall|k: int| 0 <= k < i ==> #[trigger] texts@[k]@ == texts_spec[k],
        decreases args@.len() - i,
    {
        assert(m[i as int] == args@[i as int]@);
        let t = args[i].display_text(float_texts[i].as_str()).unwrap();
        texts.push(t);
        i = i + 1;
    }
    assert(views(texts@) =~= texts_spec);
    line.append(" ");
    push_joined(&mut line, &texts, " ");
    push_tags_section(&mut line, tags.as_str());
    Ok(line)
}

/// The line confirming a sent message: the tokens as the user gave them and
/// the type tags of the arguments sent. Fails on the first argument of an
/// unsupported type.
pub fn sent_line(stamp: &str, addr: &str, tokens: &Vec<String>, args: &Vec<Argument>) -> (r:
    Result<String, UnsupportedArgumentType>)
    ensures
        r is Ok <==> all_supported(models(args@)),
        r matches Ok(s) ==> s@ == sent_line_text(
            stamp@,
            addr@,
            views(tokens@),
            tags_of(models(args@)),
        ),
        r matches Err(e) ==> exists|i: int|
            first_unsupported(models(args@), i) && models(args@)[i] == ArgumentModel::Unsupported(
                e.name@,
            ),
{
    let tags = match type_tags(args) {
        Ok(t) => t,
        Err(e) => {
            return Err(e);
        },
    };
    let mut line = head(stamp, addr);
    line.append(" ");
    push_joined(&mut line, tokens, " ");
    push_tags_section(&mut line, tags.as_str());
    Ok(line)
}

/// The line for one sampled value, given as text.
pub fn sample_line(stamp: &str, addr: &str, value: &str) -> (r: String)
    ensures
        r@ == sample_line_text(stamp@, addr@, value@),
{
    let mut line = head(stamp, addr);
    line.append(" ");
    line.append(value);
    line
}

/// The line for a received bundle, given its text.
pub fn bundle_line(bundle: &str) -> (r: String)
    ensures
        r@ == bundle_line_text(bundle@),
{
    let mut line = String::from_str("Received a bundle: ");
    line.append(bundle);
    line
}

/// Relies on chrono's `Local::now` and `DateTime::format`: the local time
/// now, as `YYYY-MM-DD hh:mm:ss` with six digits of fraction. It depends on
/// the clock, so nothing is stated of it.
#[verifier::external_body]
pub(crate) fn local_timestamp() -> (r: String) {
    chrono::Local::now().format("%Y-%m-%d %H:%M:%S%.6f").to_string()
}

/// [`sent_line`] stamped with the local time now.
pub fn sent_line_now(addr: &str, tokens: &Vec<String>, args: &Vec<Argument>) -> (r: Result<
    String,
    UnsupportedArgumentType,
>)
    ensures
        r is Ok <==> all_supported(models(args@)),
        r matches Ok(s) ==> exists|stamp: Seq<char>|
            s@ == sent_line_text(stamp, addr@, views(tokens@), tags_of(models(args@))),
{
    let stamp = local_timestamp();
    sent_line(stamp.as_str(), addr, tokens, args)
}

/// [`sample_line`] stamped with the local time now.
pub fn sample_line_now(addr: &str, value: &str) -> (r: String)
    ensures
        exists|stamp: Seq<char>| r@ == sample_line_text(stamp, addr@, value@),
{
    let stamp = local_timestamp();
    sample_line(stamp.as_str(), addr, value)
}

} // verus!
