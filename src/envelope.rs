//! The transmission envelope: a JSON array that holds one or more serialized messages.
use vstd::prelude::*;
use vstd::string::StringExecFns;

verus! {

/// The texts joined with commas between them, in order.
pub open spec fn comma_joined(texts: Seq<String>) -> Seq<char>
    decreases texts.len(),
{
    if texts.len() == 0 {
        Seq::empty()
    } else if texts.len() == 1 {
        texts[0]@
    } else {
        comma_joined(texts.drop_last()) + ","@ + texts.last()@
    }
}

/// The envelope of a list of serialized messages: `[` then the messages separated by
/// commas, then `]`. A single message goes out as a list of one.
pub open spec fn envelope(texts: Seq<String>) -> Seq<char> {
    "["@ + comma_joined(texts) + "]"@
}

/// Frames serialized messages into one transmission.
pub fn frame_messages(messages: &Vec<String>) -> (r: String)
    ensures
        r@ == envelope(messages@),
{
    let mut body = String::new();
    let mut i: usize = 0;
    while i < messages.len()
        invariant
            0 <= i <= messages@.len(),
            body@ == comma_joined(messages@.subrange(0, i as int)),
        decreases messages@.len() - i,
    {
        proof {
            let next = messages@.subrange(0, i + 1);
            assert(next.drop_last() =~= messages@.subrange(0, i as int));
            assert(next.last() == messages@[i as int]);
        }
        if i > 0 {
            body.append(",");
        }
        body.append(messages[i].as_str());
        proof {
            if i == 0 {
                assert(body@ =~= comma_joined(messages@.subrange(0, 1)));
            }
        }
        i = i + 1;
    }
    assert(messages@.subrange(0, messages@.len() as int) =~= messages@);
    let mut framed = String::from_str("[");
    framed.append(body.as_str());
    framed.append("]");
    framed
}

/// Frames one serialized message: the envelope of a list of one.
pub fn frame_message(message: &str) -> (r: String)
    ensures
        r@ == "["@ + message@ + "]"@,
{
    let mut framed = String::from_str("[");
    framed.append(message);
    framed.append("]");
    framed
}

/// A single message framed alone is the envelope of the list that holds only it.
pub proof fn lemma_single_envelope(message: String)
    ensures
        envelope(seq![message]) == "["@ + message@ + "]"@,
{
    assert(comma_joined(seq![message]) == message@);
}

} // verus!
