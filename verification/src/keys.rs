//! Keyboard bindings, held in the `keybinds` crate's dispatcher.
//!
//! The library keeps the bindings in `keybinds::Keybinds` and reads them only
//! through the trusted items of this module, which describe a dispatcher by the
//! actions and the key sequences (in their canonical text) of its bindings, in order.
use vstd::prelude::*;
use keybinds::{KeySeq, Keybind, Keybinds};
use crate::config::BindableMessage;

verus! {

#[verifier::external_type_specification]
#[verifier::external_body]
#[verifier::reject_recursive_types(A)]
pub struct ExKeybinds<A>(Keybinds<A>);

#[verifier::external_type_specification]
#[verifier::external_body]
#[verifier::reject_recursive_types(A)]
pub struct ExKeybind<A>(Keybind<A>);

#[verifier::external_type_specification]
#[verifier::external_body]
pub struct ExKeySeq(KeySeq);

/// The actions of the bindings that `k` holds, in order.
pub uninterp spec fn keybind_actions(k: Keybinds<BindableMessage>) -> Seq<BindableMessage>;

/// The key sequences of the bindings that `k` holds, in order, each as the text that
/// `KeySeq`'s `Display` writes.
pub uninterp spec fn keybind_sequences(k: Keybinds<BindableMessage>) -> Seq<Seq<char>>;

/// What parsing `key` as a `KeySeq` gives: the parsed sequence's `Display` text, or the
/// `Display` text of the parse error.
pub uninterp spec fn key_sequence_parse(key: Seq<char>) -> Result<Seq<char>, Seq<char>>;

/// `Keybinds::new(vec![])`: a dispatcher without bindings.
#[verifier::external_body]
pub(crate) fn empty_keybinds() -> (k: Keybinds<BindableMessage>)
    ensures
        keybind_actions(k) == Seq::<BindableMessage>::empty(),
        keybind_sequences(k) == Seq::<Seq<char>>::empty(),
{
    Keybinds::new(vec![])
}

/// `Keybinds::bind`: parses `key` as a key sequence; on success appends the binding
/// `key → action`, on failure leaves the bindings as they were and returns the error's
/// `Display` text.
#[verifier::external_body]
pub(crate) fn bind_key(k: &mut Keybinds<BindableMessage>, key: &str, action: BindableMessage) -> (r:
    Result<(), String>)
    ensures
        match key_sequence_parse(key@) {
            Ok(text) => {
                &&& r is Ok
                &&& keybind_actions(*final(k)) == keybind_actions(*old(k)).push(action)
                &&& keybind_sequences(*final(k)) == keybind_sequences(*old(k)).push(text)
            },
            Err(message) => {
                &&& r matches Err(m) && m@ == message
                &&& keybind_actions(*final(k)) == keybind_actions(*old(k))
                &&& keybind_sequences(*final(k)) == keybind_sequences(*old(k))
            },
        },
{
    k.bind(key, action).map_err(|e| e.to_string())
}

/// `Keybinds::as_slice().len()`: the number of bindings.
#[verifier::external_body]
pub(crate) fn keybind_count(k: &Keybinds<BindableMessage>) -> (r: usize)
    ensures
        r == keybind_actions(*k).len(),
        r == keybind_sequences(*k).len(),
{
    k.as_slice().len()
}

/// The action of the binding at position `i` of `Keybinds::as_slice`.
#[verifier::external_body]
pub(crate) fn keybind_action_at(k: &Keybinds<BindableMessage>, i: usize) -> (r: BindableMessage)
    requires
        i < keybind_actions(*k).len(),
    ensures
        r == keybind_actions(*k)[i as int],
{
    k.as_slice()[i].action
}

/// What a binding holds: its action and its key sequence, as the text that `KeySeq`'s
/// `Display` writes.
pub uninterp spec fn keybind_parts(b: Keybind<BindableMessage>) -> (BindableMessage, Seq<char>);

/// A copy (`Keybind::clone`) of the binding at position `i` of `Keybinds::as_slice`: it
/// holds that binding's action and key sequence.
#[verifier::external_body]
pub(crate) fn keybind_at(k: &Keybinds<BindableMessage>, i: usize) -> (r: Keybind<BindableMessage>)
    requires
        i < keybind_actions(*k).len(),
        i < keybind_sequences(*k).len(),
    ensures
        keybind_parts(r) == (keybind_actions(*k)[i as int], keybind_sequences(*k)[i as int]),
{
    k.as_slice()[i].clone()
}

/// `Keybinds::push` of a copy of the binding at position `i` of `from`.
#[verifier::external_body]
pub(crate) fn push_keybind_from(
    k: &mut Keybinds<BindableMessage>,
    from: &Keybinds<BindableMessage>,
    i: usize,
)
    requires
        i < keybind_actions(*from).len(),
        i < keybind_sequences(*from).len(),
    ensures
        keybind_actions(*final(k)) == keybind_actions(*old(k)).push(keybind_actions(*from)[i as int]),
        keybind_sequences(*final(k)) == keybind_sequences(*old(k)).push(
            keybind_sequences(*from)[i as int],
        ),
{
    k.push(from.as_slice()[i].clone())
}

/// The key inputs that `seq` holds (`KeySeq::as_slice`), in order, each as the text that
/// `KeyInput`'s `Display` writes.
pub uninterp spec fn key_sequence_inputs(seq: KeySeq) -> Seq<Seq<char>>;

/// The `Display` texts of the key inputs of `seq` (`KeySeq::as_slice`), in order.
#[verifier::external_body]
fn key_input_texts(seq: &KeySeq) -> (r: Vec<String>)
    ensures
        r@.map_values(|p: String| p@) == key_sequence_inputs(*seq),
{
    seq.as_slice().iter().map(|input| input.to_string()).collect()
}

/// The texts `parts`, each followed by one space.
pub open spec fn spaced(parts: Seq<Seq<char>>) -> Seq<char>
    decreases parts.len(),
{
    if parts.len() == 0 {
        Seq::empty()
    } else {
        spaced(parts.drop_last()) + parts.last() + seq![' ']
    }
}

/// How a key sequence is shown beside a menu entry: `(` followed by each input and a
/// space, then the last character removed and `)` added. For one or more inputs this is the
/// inputs joined by spaces in parentheses; for none it is `)` alone.
pub open spec fn key_sequence_label(parts: Seq<Seq<char>>) -> Seq<char> {
    (seq!['('] + spaced(parts)).drop_last().push(')')
}

/// Lays out the texts of a key sequence's inputs as `key_sequence_label` says.
pub fn format_key_texts(parts: &[String]) -> (r: String)
    ensures
        r@ == key_sequence_label(parts@.map_values(|p: String| p@)),
{
    let ghost views = parts@.map_values(|p: String| p@);
    let mut out: Vec<char> = Vec::new();
    out.push('(');
    let mut i: usize = 0;
    while i < parts.len()
        invariant
            i <= parts@.len(),
            views == parts@.map_values(|p: String| p@),
            out@ == seq!['('] + spaced(views.take(i as int)),
        decreases parts@.len() - i,
    {
        let p = crate::text::to_chars(parts[i].as_str());
        let mut j: usize = 0;
        let ghost before = out@;
        while j < p.len()
            invariant
                j <= p@.len(),
                out@ == before + p@.take(j as int),
            decreases p@.len() - j,
        {
            out.push(p[j]);
            j = j + 1;
        }
        out.push(' ');
        assert(views.take(i + 1).drop_last() =~= views.take(i as int));
        assert(p@.take(p@.len() as int) =~= p@);
        assert(out@ =~= seq!['('] + spaced(views.take(i + 1)));
        i = i + 1;
    }
    assert(views.take(parts@.len() as int) =~= views);
    out.pop();
    out.push(')');
    crate::text::from_chars(out.as_slice())
}

/// The label of the key sequence `seq`: its inputs joined by spaces, in parentheses.
pub fn format_key_sequence(seq: &KeySeq) -> (r: String)
    ensures
        r@ == key_sequence_label(key_sequence_inputs(*seq)),
{
    let parts = key_input_texts(seq);
    format_key_texts(parts.as_slice())
}

} // verus!
