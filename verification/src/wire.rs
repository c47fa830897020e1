//! The text form in which a graph travels to the executor.
//!
//! A message is one object with the fields `operations` and `checkpoint`; each
//! operation is an object with the fields `id`, `function_name` and `args`.
//! Nothing separates the tokens. Numbers are written in decimal, kinds by
//! their names, and each argument as the JSON string that `serde_json` writes
//! for it.

use crate::error::ErrorKind;
use crate::operation::{node_views, texts, NodeView, OpNode, OperationType};
use crate::tokens::joined;
use vstd::prelude::*;

verus! {

/// The character of the digit `d`.
pub open spec fn digit(d: nat) -> char
    recommends
        d < 10,
{
    "0123456789"@[d as int]
}

/// `n` in decimal, without leading zeros.
pub open spec fn decimal(n: nat) -> Seq<char>
    decreases n,
{
    if n < 10 {
        seq![digit(n)]
    } else {
        decimal(n / 10).push(digit(n % 10))
    }
}

/// The number that a digit character stands for.
pub open spec fn digit_value(c: char) -> nat
    recommends
        '0' <= c <= '9',
{
    (c as nat - '0' as nat) as nat
}

/// The number that a sequence of digits stands for in decimal.
pub open spec fn decimal_value(digits: Seq<char>) -> nat
    decreases digits.len(),
{
    if digits.len() == 0 {
        0
    } else {
        10 * decimal_value(digits.drop_last()) + digit_value(digits.last())
    }
}

/// Reading the decimal text of a number gives the number back, so that
/// different numbers have different texts.
pub proof fn lemma_decimal_value(n: nat)
    ensures
        decimal_value(decimal(n)) == n,
        decimal(n).len() >= 1,
    decreases n,
{
    reveal_strlit("0123456789");
    if n < 10 {
        assert(decimal_value(decimal(n).drop_last()) == 0);
    } else {
        lemma_decimal_value(n / 10);
        assert(decimal(n).drop_last() == decimal(n / 10));
    }
}

/// What `serde_json::to_string` makes of the string `s`: the text of its JSON
/// string, or `None` where the encoder fails.
pub uninterp spec fn json_string(s: Seq<char>) -> Option<Seq<char>>;

/// A list: its items between square brackets, with commas between them.
pub open spec fn list_text(items: Seq<Seq<char>>) -> Seq<char> {
    "["@ + joined(items, ","@) + "]"@
}

/// One operation, given its list of arguments as text.
pub open spec fn node_frame(id: nat, kind: OperationType, args_list: Seq<char>) -> Seq<char> {
    "{\"id\":"@ + decimal(id) + ",\"function_name\":\""@ + kind.spec_name() + "\",\"args\":"@
        + args_list + "}"@
}

/// A whole message, given its list of operations as text.
pub open spec fn message_frame(operations_list: Seq<char>, checkpoint: nat) -> Seq<char> {
    "{\"operations\":"@ + operations_list + ",\"checkpoint\":"@ + decimal(checkpoint) + "}"@
}

/// Every argument has a JSON string.
pub open spec fn encodable(args: Seq<Seq<char>>) -> bool {
    forall|i: int| 0 <= i < args.len() ==> json_string(#[trigger] args[i]) is Some
}

/// Each argument as a JSON string.
pub open spec fn quoted(args: Seq<Seq<char>>) -> Seq<Seq<char>>
    recommends
        encodable(args),
{
    args.map_values(|a: Seq<char>| json_string(a)->Some_0)
}

/// The text of one operation.
pub open spec fn node_text(node: NodeView) -> Seq<char>
    recommends
        encodable(node.args),
{
    node_frame(node.id, node.kind, list_text(quoted(node.args)))
}

/// The arguments of every operation have JSON strings.
pub open spec fn all_encodable(operations: Seq<NodeView>) -> bool {
    forall|i: int| 0 <= i < operations.len() ==> encodable((#[trigger] operations[i]).args)
}

/// The text of each operation.
pub open spec fn node_texts(operations: Seq<NodeView>) -> Seq<Seq<char>>
    recommends
        all_encodable(operations),
{
    operations.map_values(|n: NodeView| node_text(n))
}

/// The text of the message that carries `operations` and `checkpoint`.
pub open spec fn message_text(operations: Seq<NodeView>, checkpoint: nat) -> Seq<char>
    recommends
        all_encodable(operations),
{
    message_frame(list_text(node_texts(operations)), checkpoint)
}

/// No operation has an argument.
pub open spec fn without_arguments(operations: Seq<NodeView>) -> bool {
    forall|i: int| 0 <= i < operations.len() ==> (#[trigger] operations[i]).args.len() == 0
}

/// Operations without arguments can always be encoded: the string encoder is
/// used for arguments alone.
pub proof fn lemma_without_arguments_encodable(operations: Seq<NodeView>)
    requires
        without_arguments(operations),
    ensures
        all_encodable(operations),
{
}

/// `serde_json::Error`, the error of the string encoder. Nothing is known of
/// its contents.
#[verifier::external_type_specification]
#[verifier::external_body]
pub struct ExJsonError(serde_json::Error);

/// `serde_json::to_string` on a string slice. What the call gives depends on
/// the characters of `s` alone, and `json_string` names it: the text where the
/// call succeeds, `None` where it fails. Nothing is claimed about which
/// strings succeed, nor about what the text looks like.
#[verifier::external_body]
fn quote(s: &str) -> (r: Result<String, serde_json::Error>)
    ensures
        match r {
            Ok(t) => json_string(s@) == Some(t@),
            Err(_) => json_string(s@) is None,
        },
{
    serde_json::to_string(s)
}

fn digit_text(d: usize) -> (s: &'static str)
    requires
        d < 10,
    ensures
        s@ == seq![digit(d as nat)],
{
    proof {
        reveal_strlit("0123456789");
    }
    "0123456789".substring_char(d, d + 1)
}

/// Writes `n` in decimal.
pub fn decimal_text(n: usize) -> (s: String)
    ensures
        s@ == decimal(n as nat),
    decreases n,
{
    if n < 10 {
        String::from_str(digit_text(n))
    } else {
        let mut s = decimal_text(n / 10);
        s.append(digit_text(n % 10));
        s
    }
}

/// Writes a list of items that are already text.
pub fn frame_list(items: &Vec<String>) -> (s: String)
    ensures
        s@ == list_text(texts(items@)),
{
    let mut s = String::from_str("[");
    let mut i: usize = 0;
    while i < items.len()
        invariant
            i <= items.len(),
            s@ == "["@ + joined(texts(items@).take(i as int), ","@),
        decreases items.len() - i,
    {
        assert(texts(items@).take(i + 1).drop_last() == texts(items@).take(i as int));
        if i > 0 {
            s.append(",");
        }
        s.append(items[i].as_str());
        i = i + 1;
    }
    assert(texts(items@).take(i as int) == texts(items@));
    s.append("]");
    s
}

/// Writes one operation around the text of its argument list.
pub fn frame_node(id: usize, kind: OperationType, args_list: &str) -> (s: String)
    ensures
        s@ == node_frame(id as nat, kind, args_list@),
{
    let mut s = String::from_str("{\"id\":");
    let id_text = decimal_text(id);
    s.append(id_text.as_str());
    s.append(",\"function_name\":\"");
    s.append(kind.name());
    s.append("\",\"args\":");
    s.append(args_list);
    s.append("}");
    s
}

/// Writes a message around the text of its operation list.
pub fn frame_message(operations_list: &str, checkpoint: usize) -> (s: String)
    ensures
        s@ == message_frame(operations_list@, checkpoint as nat),
{
    let mut s = String::from_str("{\"operations\":");
    s.append(operations_list);
    s.append(",\"checkpoint\":");
    let checkpoint_text = decimal_text(checkpoint);
    s.append(checkpoint_text.as_str());
    s.append("}");
    s
}

/// Encodes each argument as a JSON string, or fails if one of them has none.
pub fn quote_all(args: &Vec<String>) -> (r: Result<Vec<String>, ErrorKind>)
    ensures
        r is Ok <==> encodable(texts(args@)),
        r matches Ok(q) ==> texts(q@) == quoted(texts(args@)),
        r matches Err(kind) ==> kind == ErrorKind::Serialization,
{
    let mut out: Vec<String> = Vec::new();
    let mut i: usize = 0;
    while i < args.len()
        invariant
            i <= args.len(),
            texts(out@) == quoted(texts(args@)).take(i as int),
            forall|k: int| 0 <= k < i ==> json_string(#[trigger] texts(args@)[k]) is Some,
        decreases args.len() - i,
    {
        match quote(args[i].as_str()) {
            Ok(text) => {
                assert(texts(out@.push(text)) == texts(out@).push(text@));
                out.push(text);
            },
            Err(_) => {
                assert(texts(args@)[i as int] == args@[i as int]@);
                return Err(ErrorKind::Serialization);
            },
        }
        i = i + 1;
    }
    Ok(out)
}

/// Encodes one operation, or fails if one of its arguments has no JSON string.
pub fn encode_node(node: &OpNode) -> (r: Result<String, ErrorKind>)
    ensures
        r is Ok <==> encodable(node@.args),
        r matches Ok(s) ==> s@ == node_text(node@),
        r matches Err(kind) ==> kind == ErrorKind::Serialization,
{
    match quote_all(&node.args) {
        Ok(quoted_args) => {
            let args_list = frame_list(&quoted_args);
            Ok(frame_node(node.id, node.function_name, args_list.as_str()))
        },
        Err(kind) => Err(kind),
    }
}

/// Encodes the message that carries `operations` and `checkpoint`, or fails
/// if an argument of one of the operations has no JSON string.
pub fn encode_message(operations: &Vec<OpNode>, checkpoint: usize) -> (r: Result<
    String,
    ErrorKind,
>)
    ensures
        r is Ok <==> all_encodable(node_views(operations@)),
        r matches Ok(s) ==> s@ == message_text(node_views(operations@), checkpoint as nat),
        r matches Err(kind) ==> kind == ErrorKind::Serialization,
{
    let ghost views = node_views(operations@);
    let mut encoded: Vec<String> = Vec::new();
    let mut i: usize = 0;
    while i < operations.len()
        invariant
            i <= operations.len(),
            views == node_views(operations@),
            texts(encoded@) == node_texts(views).take(i as int),
            forall|k: int| 0 <= k < i ==> encodable((#[trigger] views[k]).args),
        decreases operations.len() - i,
    {
        match encode_node(&operations[i]) {
            Ok(text) => {
                assert(texts(encoded@.push(text)) == texts(encoded@).push(text@));
                encoded.push(text);
            },
            Err(kind) => {
                assert(!encodable(views[i as int].args));
                return Err(kind);
            },
        }
        i = i + 1;
    }
    assert(node_texts(views).take(i as int) == node_texts(views));
    let operations_list = frame_list(&encoded);
    Ok(frame_message(operations_list.as_str(), checkpoint))
}

} // verus!
