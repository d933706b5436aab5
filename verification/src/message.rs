//! The message value and its wire codec.
//!
//! A [`Message`] is one unit of communication: a type tag, a text payload, a
//! sender, an ordered reply chain of topics and a key/value parameter list.
//! The codec renders a message as a single string: a three-character header
//! (type code, parameter count, response-topic count) followed by the fields
//! separated by a reserved separator character.

use vstd::prelude::*;
use vstd::string::StrSliceExecFns;
use vstd::string::StringExecFns;

use crate::error::{Error, MessageCompressionError};
use crate::text::{
    char_free, join_from, lemma_join_split, lemma_split_len, lemma_split_prefix, push_char,
    spec_join, spec_split, split_str, str_eq,
};

verus! {

/// The separator character of the wire codec.
pub open spec fn sep_char() -> char {
    '\u{0}'
}

/// The kind of payload a message carries.
#[derive(Debug, PartialEq, Eq, Clone, Copy, Structural)]
pub enum MessageType {
    Unknown,
    Text,
    Audio,
    Photo,
    ModuleInfo,
}

impl Default for MessageType {
    fn default() -> (r: Self)
        ensures
            r == MessageType::Unknown,
    {
        MessageType::Unknown
    }
}

/// The one-character wire code of a message type.
pub open spec fn type_code(t: MessageType) -> char {
    match t {
        MessageType::Unknown => '\u{0}',
        MessageType::Text => '\u{1}',
        MessageType::Audio => '\u{2}',
        MessageType::Photo => '\u{3}',
        MessageType::ModuleInfo => '\u{ff}',
    }
}

/// The message type a wire code stands for, if it is recognized.
pub open spec fn code_type(c: char) -> Option<MessageType> {
    if c == '\u{0}' {
        Some(MessageType::Unknown)
    } else if c == '\u{1}' {
        Some(MessageType::Text)
    } else if c == '\u{2}' {
        Some(MessageType::Audio)
    } else if c == '\u{3}' {
        Some(MessageType::Photo)
    } else if c == '\u{ff}' {
        Some(MessageType::ModuleInfo)
    } else {
        None
    }
}

impl MessageType {
    /// The one-character wire code of this message type.
    pub fn compress(&self) -> (r: char)
        ensures
            r == type_code(*self),
            code_type(r) == Some(*self),
    {
        match self {
            MessageType::Unknown => '\u{0}',
            MessageType::Text => '\u{1}',
            MessageType::Audio => '\u{2}',
            MessageType::Photo => '\u{3}',
            MessageType::ModuleInfo => '\u{ff}',
        }
    }

    /// The message type a wire code stands for; an unrecognized code is an
    /// error carrying that code and a description.
    pub fn decompress(val: char) -> (r: Result<Self, String>)
        ensures
            r matches Ok(t) ==> code_type(val) == Some(t),
            r is Err <==> code_type(val) is None,
            r matches Err(e) ==> e@ == seq![val] + " is not a valid MessageType."@,
    {
        if val == '\u{0}' {
            Ok(MessageType::Unknown)
        } else if val == '\u{1}' {
            Ok(MessageType::Text)
        } else if val == '\u{2}' {
            Ok(MessageType::Audio)
        } else if val == '\u{3}' {
            Ok(MessageType::Photo)
        } else if val == '\u{ff}' {
            Ok(MessageType::ModuleInfo)
        } else {
            let mut e = String::new();
            push_char(&mut e, val);
            e.append(" is not a valid MessageType.");
            proof {
                assert(e@ =~= seq![val] + " is not a valid MessageType."@);
            }
            Err(e)
        }
    }

    /// The name of this message type, as it is written in configuration.
    pub fn name(&self) -> (r: &'static str)
        ensures
            *self == MessageType::Unknown ==> r@ == "Unknown"@,
            *self == MessageType::Text ==> r@ == "Text"@,
            *self == MessageType::Audio ==> r@ == "Audio"@,
            *self == MessageType::Photo ==> r@ == "Photo"@,
            *self == MessageType::ModuleInfo ==> r@ == "ModuleInfo"@,
    {
        match self {
            MessageType::Unknown => "Unknown",
            MessageType::Text => "Text",
            MessageType::Audio => "Audio",
            MessageType::Photo => "Photo",
            MessageType::ModuleInfo => "ModuleInfo",
        }
    }

    /// The message type a name stands for; an unrecognized name is an error.
    pub fn from_name(s: &str) -> (r: Result<Self, Error>)
        ensures
            r matches Ok(t) ==> (s@ == "Unknown"@ && t == MessageType::Unknown) || (s@ == "Text"@
                && t == MessageType::Text) || (s@ == "Audio"@ && t == MessageType::Audio) || (s@
                == "Photo"@ && t == MessageType::Photo) || (s@ == "ModuleInfo"@ && t
                == MessageType::ModuleInfo),
            r is Err <==> (s@ != "Unknown"@ && s@ != "Text"@ && s@ != "Audio"@ && s@ != "Photo"@
                && s@ != "ModuleInfo"@),
            r matches Err(e) ==> e is ConversionError,
    {
        if str_eq(s, "Unknown") {
            Ok(MessageType::Unknown)
        } else if str_eq(s, "Text") {
            Ok(MessageType::Text)
        } else if str_eq(s, "Audio") {
            Ok(MessageType::Audio)
        } else if str_eq(s, "Photo") {
            Ok(MessageType::Photo)
        } else if str_eq(s, "ModuleInfo") {
            Ok(MessageType::ModuleInfo)
        } else {
            Err(Error::ConversionError)
        }
    }
}

/// The one-character rendering of a count between 0 and 255.
pub open spec fn count_char(n: int) -> char {
    n as char
}

/// The wire form of a parameter list: each key and value followed by the
/// separator character.
pub open spec fn spec_encode_params(ps: Seq<(Seq<char>, Seq<char>)>) -> Seq<char>
    decreases ps.len(),
{
    if ps.len() == 0 {
        Seq::empty()
    } else {
        ps[0].0 + seq![sep_char()] + ps[0].1 + seq![sep_char()] + spec_encode_params(ps.skip(1))
    }
}

/// The wire form of a whole message, for counts that fit in one character.
pub open spec fn spec_encode(m: Message) -> Seq<char> {
    seq![
        type_code(m.message_type),
        count_char(m.params@.len() as int),
        count_char(m.response_topics@.len() as int),
    ] + spec_encode_params(m.params.deep_view()) + spec_join(
        m.response_topics.deep_view(),
        sep_char(),
    ) + seq![sep_char()] + m.sender@ + seq![sep_char()] + m.text@
}

fn push_params(s: &mut String, params: &Vec<(String, String)>, start: usize)
    requires
        start <= params.len(),
    ensures
        final(s)@ == old(s)@ + spec_encode_params(params.deep_view().skip(start as int)),
    decreases params.len() - start,
{
    if start < params.len() {
        s.append(params[start].0.as_str());
        push_char(s, '\u{0}');
        s.append(params[start].1.as_str());
        push_char(s, '\u{0}');
        push_params(s, params, start + 1);
        proof {
            let ps = params.deep_view().skip(start as int);
            assert(ps.skip(1) =~~= params.deep_view().skip(start as int + 1));
            assert(ps[0] == params@[start as int].deep_view());
            assert(s@ =~= old(s)@ + spec_encode_params(ps));
        }
    } else {
        proof {
            assert(params.deep_view().skip(start as int).len() == 0);
            assert(s@ =~= old(s)@ + spec_encode_params(params.deep_view().skip(start as int)));
        }
    }
}

/// The tokens of a payload after the header, split around the separator.
pub open spec fn spec_tokens(s: Seq<char>) -> Seq<Seq<char>> {
    spec_split(s.skip(3), sep_char())
}

/// The parameter count a payload's header declares. A header character
/// beyond 255 is read through its low byte, as the wire format has always
/// been read.
pub open spec fn spec_param_count(s: Seq<char>) -> int {
    (s[1] as u8) as int
}

/// The response-topic count a payload's header declares.
pub open spec fn spec_topic_count(s: Seq<char>) -> int {
    (s[2] as u8) as int
}

/// Whether a payload decodes: it has the three-character header, a
/// recognized type code, and enough tokens for the declared parameters and
/// response topics plus a sender.
pub open spec fn spec_decode_ok(s: Seq<char>) -> bool {
    &&& s.len() >= 3
    &&& code_type(s[0]) is Some
    &&& spec_tokens(s).len() >= 2 * spec_param_count(s) + spec_topic_count(s) + 1
}

/// The parameter pairs a payload decodes to.
pub open spec fn spec_decoded_params(s: Seq<char>) -> Seq<(Seq<char>, Seq<char>)> {
    Seq::new(
        spec_param_count(s) as nat,
        |i: int| (spec_tokens(s)[2 * i], spec_tokens(s)[2 * i + 1]),
    )
}

/// The response topics a payload decodes to.
pub open spec fn spec_decoded_topics(s: Seq<char>) -> Seq<Seq<char>> {
    spec_tokens(s).subrange(
        2 * spec_param_count(s),
        2 * spec_param_count(s) + spec_topic_count(s),
    )
}

/// The sender a payload decodes to.
pub open spec fn spec_decoded_sender(s: Seq<char>) -> Seq<char> {
    spec_tokens(s)[2 * spec_param_count(s) + spec_topic_count(s)]
}

/// The text a payload decodes to: every remaining token, rejoined verbatim
/// with the separator.
pub open spec fn spec_decoded_text(s: Seq<char>) -> Seq<char> {
    spec_join(spec_tokens(s).skip(2 * spec_param_count(s) + spec_topic_count(s) + 1), sep_char())
}

/// The parameter pairs, flattened to the token sequence the wire carries:
/// key, value, key, value, in order.
pub open spec fn flat_params(ps: Seq<(Seq<char>, Seq<char>)>) -> Seq<Seq<char>>
    decreases ps.len(),
{
    if ps.len() == 0 {
        Seq::empty()
    } else {
        seq![ps[0].0, ps[0].1] + flat_params(ps.skip(1))
    }
}

proof fn lemma_flat_params_index(ps: Seq<(Seq<char>, Seq<char>)>)
    ensures
        flat_params(ps).len() == 2 * ps.len(),
        forall|i: int|
            0 <= i < ps.len() ==> flat_params(ps)[2 * i] == ps[i].0 && flat_params(ps)[2 * i + 1]
                == ps[i].1,
    decreases ps.len(),
{
    if ps.len() > 0 {
        lemma_flat_params_index(ps.skip(1));
        assert forall|i: int| 0 <= i < ps.len() implies flat_params(ps)[2 * i] == ps[i].0
            && flat_params(ps)[2 * i + 1] == ps[i].1 by {
            if i > 0 {
                assert(ps.skip(1)[i - 1] == ps[i]);
                assert(flat_params(ps)[2 * i] == flat_params(ps.skip(1))[2 * (i - 1)]);
                assert(flat_params(ps)[2 * i + 1] == flat_params(ps.skip(1))[2 * (i - 1) + 1]);
            }
        }
    }
}

/// Every key and value is free of the separator character.
pub open spec fn params_sep_free(ps: Seq<(Seq<char>, Seq<char>)>) -> bool {
    forall|i: int|
        0 <= i < ps.len() ==> char_free(#[trigger] ps[i].0, sep_char()) && char_free(
            ps[i].1,
            sep_char(),
        )
}

/// Every topic is free of the separator character.
pub open spec fn topics_sep_free(ts: Seq<Seq<char>>) -> bool {
    forall|i: int| 0 <= i < ts.len() ==> char_free(#[trigger] ts[i], sep_char())
}

proof fn lemma_split_params(ps: Seq<(Seq<char>, Seq<char>)>, tail: Seq<char>)
    requires
        params_sep_free(ps),
    ensures
        spec_split(spec_encode_params(ps) + tail, sep_char()) =~~= flat_params(ps) + spec_split(
            tail,
            sep_char(),
        ),
    decreases ps.len(),
{
    let c = sep_char();
    if ps.len() == 0 {
        assert(spec_encode_params(ps) + tail =~= tail);
    } else {
        let k = ps[0].0;
        let v = ps[0].1;
        let rest = spec_encode_params(ps.skip(1));
        assert forall|i: int| 0 <= i < ps.skip(1).len() implies char_free(
            #[trigger] ps.skip(1)[i].0,
            sep_char(),
        ) && char_free(ps.skip(1)[i].1, sep_char()) by {
            assert(ps.skip(1)[i] == ps[i + 1]);
            assert(char_free(ps[i + 1].0, sep_char()) && char_free(ps[i + 1].1, sep_char()));
        }
        assert(params_sep_free(ps.skip(1)));
        lemma_split_params(ps.skip(1), tail);
        lemma_split_prefix(v, rest + tail, c);
        lemma_split_prefix(k, v + seq![c] + (rest + tail), c);
        assert(spec_encode_params(ps) + tail =~= k + seq![c] + (v + seq![c] + (rest + tail)));
        assert(spec_split(spec_encode_params(ps) + tail, c) =~~= seq![k] + (seq![v] + spec_split(
            rest + tail,
            c,
        )));
        assert(flat_params(ps) + spec_split(tail, c) =~~= seq![k, v] + (flat_params(ps.skip(1))
            + spec_split(tail, c)));
    }
}

proof fn lemma_split_topics(ts: Seq<Seq<char>>, tail: Seq<char>)
    requires
        topics_sep_free(ts),
        ts.len() >= 1,
    ensures
        spec_split(spec_join(ts, sep_char()) + seq![sep_char()] + tail, sep_char()) =~~= ts
            + spec_split(tail, sep_char()),
    decreases ts.len(),
{
    let c = sep_char();
    if ts.len() == 1 {
        lemma_split_prefix(ts[0], tail, c);
        assert(spec_join(ts, c) + seq![c] + tail =~= ts[0] + seq![c] + tail);
        assert(seq![ts[0]] =~~= ts);
    } else {
        assert(topics_sep_free(ts.skip(1))) by {
            assert(forall|i: int| 0 <= i < ts.skip(1).len() ==> ts.skip(1)[i] == ts[i + 1]);
        }
        lemma_split_topics(ts.skip(1), tail);
        let restjoin = spec_join(ts.skip(1), c) + seq![c] + tail;
        lemma_split_prefix(ts[0], restjoin, c);
        assert(spec_join(ts, c) + seq![c] + tail =~= ts[0] + seq![c] + restjoin);
        assert(spec_split(spec_join(ts, c) + seq![c] + tail, c) =~~= seq![ts[0]] + (ts.skip(1)
            + spec_split(tail, c)));
        assert(seq![ts[0]] + (ts.skip(1) + spec_split(tail, c)) =~~= ts + spec_split(tail, c));
    }
}

/// Whether a message survives the wire codec unchanged: the counts fit in
/// one character each, there is at least one response topic (with none, the
/// empty topic join and the following separator produce a stray empty token
/// that shifts the sender on decode), and no parameter, topic or sender
/// contains the separator character. The text may contain the separator:
/// decode rejoins the remaining tokens verbatim.
pub open spec fn codec_safe(m: Message) -> bool {
    &&& m.params@.len() <= 255
    &&& 1 <= m.response_topics@.len() <= 255
    &&& params_sep_free(m.params.deep_view())
    &&& topics_sep_free(m.response_topics.deep_view())
    &&& char_free(m.sender@, sep_char())
}

/// Round-trip law of the wire codec: a message whose counts fit in one
/// character, with at least one response topic and no separator in its
/// params, topics or sender, decodes from its own encoding to an equal
/// message, field for field.
pub proof fn lemma_codec_round_trip(m: Message)
    requires
        codec_safe(m),
    ensures
        spec_decode_ok(spec_encode(m)),
        code_type(spec_encode(m)[0]) == Some(m.message_type),
        spec_decoded_params(spec_encode(m)) =~~= m.params.deep_view(),
        spec_decoded_topics(spec_encode(m)) =~~= m.response_topics.deep_view(),
        spec_decoded_sender(spec_encode(m)) =~= m.sender@,
        spec_decoded_text(spec_encode(m)) =~= m.text@,
{
    let c = sep_char();
    let s = spec_encode(m);
    let ps = m.params.deep_view();
    let ts = m.response_topics.deep_view();
    let p = ps.len() as int;
    let t = ts.len() as int;
    assert(ps.len() == m.params@.len());
    assert(ts.len() == m.response_topics@.len());
    let tail2 = m.sender@ + seq![c] + m.text@;
    assert(s.skip(3) =~= spec_encode_params(ps) + (spec_join(ts, c) + seq![c] + tail2));
    lemma_split_params(ps, spec_join(ts, c) + seq![c] + tail2);
    lemma_split_topics(ts, tail2);
    lemma_split_prefix(m.sender@, m.text@, c);
    lemma_flat_params_index(ps);
    lemma_split_len(m.text@, c);
    let toks = spec_tokens(s);
    assert(toks =~~= flat_params(ps) + (ts + (seq![m.sender@] + spec_split(m.text@, c))));
    assert(toks.len() == 2 * p + t + 1 + spec_split(m.text@, c).len());
    assert(s[1] == count_char(p));
    assert(s[2] == count_char(t));
    assert(spec_param_count(s) == p);
    assert(spec_topic_count(s) == t);
    assert(spec_decode_ok(s));
    assert forall|i: int| 0 <= i < p implies spec_decoded_params(s)[i] == ps[i] by {
        assert(toks[2 * i] == flat_params(ps)[2 * i]);
        assert(toks[2 * i + 1] == flat_params(ps)[2 * i + 1]);
    }
    assert(spec_decoded_params(s) =~~= ps);
    assert forall|i: int| 0 <= i < t implies spec_decoded_topics(s)[i] == ts[i] by {
        assert(toks[2 * p + i] == ts[i]);
    }
    assert(spec_decoded_topics(s) =~~= ts);
    assert(toks[2 * p + t] == m.sender@);
    assert(toks.skip(2 * p + t + 1) =~~= spec_split(m.text@, c));
    lemma_join_split(m.text@, c);
    assert(spec_decoded_text(s) =~= m.text@);
}

/// One unit of communication between modules: an immutable value, created at
/// send time or on decode, never mutated after construction.
#[derive(Debug)]
pub struct Message {
    pub message_type: MessageType,
    pub params: Vec<(String, String)>,
    pub response_topics: Vec<String>,
    pub sender: String,
    pub text: String,
}

/// Message equivalence: equality of every field, character for character.
pub open spec fn message_eqv(a: Message, b: Message) -> bool {
    &&& a.message_type == b.message_type
    &&& a.params.deep_view() == b.params.deep_view()
    &&& a.response_topics.deep_view() == b.response_topics.deep_view()
    &&& a.sender@ == b.sender@
    &&& a.text@ == b.text@
}

fn params_eq(a: &Vec<(String, String)>, b: &Vec<(String, String)>) -> (r: bool)
    ensures
        r == (a.deep_view() == b.deep_view()),
{
    proof {
        assert(a.deep_view().len() == a@.len());
        assert(b.deep_view().len() == b@.len());
    }
    if a.len() != b.len() {
        return false;
    }
    let mut i: usize = 0;
    while i < a.len()
        invariant
            a@.len() == b@.len(),
            i <= a@.len(),
            a.deep_view().len() == a@.len(),
            b.deep_view().len() == b@.len(),
            forall|j: int|
                0 <= j < i ==> (#[trigger] a.deep_view()[j]).0 == b.deep_view()[j].0
                    && a.deep_view()[j].1 == b.deep_view()[j].1,
        decreases a@.len() - i,
    {
        if !str_eq(a[i].0.as_str(), b[i].0.as_str()) {
            proof {
                assert(a.deep_view()[i as int].0 != b.deep_view()[i as int].0);
            }
            return false;
        }
        if !str_eq(a[i].1.as_str(), b[i].1.as_str()) {
            proof {
                assert(a.deep_view()[i as int].1 != b.deep_view()[i as int].1);
            }
            return false;
        }
        i += 1;
    }
    proof {
        assert(a.deep_view() =~~= b.deep_view());
    }
    true
}

fn topics_eq(a: &Vec<String>, b: &Vec<String>) -> (r: bool)
    ensures
        r == (a.deep_view() == b.deep_view()),
{
    proof {
        assert(a.deep_view().len() == a@.len());
        assert(b.deep_view().len() == b@.len());
    }
    if a.len() != b.len() {
        return false;
    }
    let mut i: usize = 0;
    while i < a.len()
        invariant
            a@.len() == b@.len(),
            i <= a@.len(),
            a.deep_view().len() == a@.len(),
            b.deep_view().len() == b@.len(),
            forall|j: int| 0 <= j < i ==> #[trigger] a.deep_view()[j] == b.deep_view()[j],
        decreases a@.len() - i,
    {
        if !str_eq(a[i].as_str(), b[i].as_str()) {
            proof {
                assert(a.deep_view()[i as int] != b.deep_view()[i as int]);
            }
            return false;
        }
        i += 1;
    }
    proof {
        assert(a.deep_view() =~~= b.deep_view());
    }
    true
}

impl PartialEq for Message {
    /// Two messages are equal when every field is, character for character.
    fn eq(&self, other: &Self) -> (r: bool) {
        self.message_type == other.message_type && str_eq(
            self.sender.as_str(),
            other.sender.as_str(),
        ) && str_eq(self.text.as_str(), other.text.as_str()) && params_eq(
            &self.params,
            &other.params,
        ) && topics_eq(&self.response_topics, &other.response_topics)
    }
}

impl vstd::std_specs::cmp::PartialEqSpecImpl for Message {
    open spec fn obeys_eq_spec() -> bool {
        true
    }

    open spec fn eq_spec(&self, other: &Self) -> bool {
        message_eqv(*self, *other)
    }
}

impl Default for Message {
    fn default() -> (r: Self)
        ensures
            r.message_type == MessageType::Unknown,
            r.params@ =~= Seq::<(String, String)>::empty(),
            r.response_topics@ =~= Seq::<String>::empty(),
            r.sender@ =~= Seq::<char>::empty(),
            r.text@ =~= Seq::<char>::empty(),
    {
        Message {
            message_type: MessageType::Unknown,
            params: Vec::new(),
            response_topics: Vec::new(),
            sender: String::new(),
            text: String::new(),
        }
    }
}

impl Clone for Message {
    /// A clone is equivalent to the original, field for field.
    fn clone(&self) -> (r: Self)
        ensures
            message_eqv(r, *self),
    {
        let mut params: Vec<(String, String)> = Vec::new();
        let mut i: usize = 0;
        while i < self.params.len()
            invariant
                i <= self.params.len(),
                params@.len() == i,
                forall|j: int| 0 <= j < i ==> params@[j] == self.params@[j],
            decreases self.params.len() - i,
        {
            params.push((self.params[i].0.clone(), self.params[i].1.clone()));
            i += 1;
        }
        let mut response_topics: Vec<String> = Vec::new();
        let mut k: usize = 0;
        while k < self.response_topics.len()
            invariant
                k <= self.response_topics.len(),
                response_topics@.len() == k,
                forall|j: int| 0 <= j < k ==> response_topics@[j] == self.response_topics@[j],
            decreases self.response_topics.len() - k,
        {
            response_topics.push(self.response_topics[k].clone());
            k += 1;
        }
        proof {
            assert(params@ =~= self.params@);
            assert(response_topics@ =~= self.response_topics@);
        }
        Message {
            message_type: self.message_type,
            params,
            response_topics,
            sender: self.sender.clone(),
            text: self.text.clone(),
        }
    }
}

impl Message {
    /// A fresh message with every field empty and an `Unknown` type.
    pub fn empty() -> (r: Self)
        ensures
            r.message_type == MessageType::Unknown,
            r.params@ =~= Seq::<(String, String)>::empty(),
            r.response_topics@ =~= Seq::<String>::empty(),
            r.sender@ =~= Seq::<char>::empty(),
            r.text@ =~= Seq::<char>::empty(),
    {
        Message::default()
    }

    /// Encodes this message for the wire: a three-character header (type
    /// code, parameter count, response-topic count), each parameter as
    /// `key SEP value SEP`, the response topics joined by `SEP`, then `SEP`,
    /// the sender, `SEP` and the text verbatim.
    pub fn compress(&self) -> (r: String)
        requires
            self.params@.len() <= 255,
            self.response_topics@.len() <= 255,
        ensures
            r@ == spec_encode(*self),
    {
        let mut s = String::new();
        push_char(&mut s, self.message_type.compress());
        push_char(&mut s, (self.params.len() as u8) as char);
        push_char(&mut s, (self.response_topics.len() as u8) as char);
        proof {
            assert(s@ =~= seq![
                type_code(self.message_type),
                count_char(self.params@.len() as int),
                count_char(self.response_topics@.len() as int),
            ]);
        }
        push_params(&mut s, &self.params, 0);
        join_from(&self.response_topics, 0, '\u{0}', &mut s);
        push_char(&mut s, '\u{0}');
        s.append(self.sender.as_str());
        push_char(&mut s, '\u{0}');
        s.append(self.text.as_str());
        proof {
            assert(self.params.deep_view().skip(0) =~~= self.params.deep_view());
            assert(self.response_topics.deep_view().skip(0) =~~= self.response_topics.deep_view());
            assert(s@ =~= spec_encode(*self));
        }
        s
    }

    /// Decodes a wire payload. The three header characters give the type and
    /// the two counts; the remainder is split around the separator into the
    /// parameter pairs, the response topics, the sender, and the text (every
    /// remaining token, rejoined verbatim). A payload shorter than the
    /// header, an unrecognized type code, or fewer tokens than the header
    /// declares is a typed error, never a panic.
    pub fn decompress(comp_str: &str) -> (r: Result<Message, MessageCompressionError>)
        ensures
            r is Ok <==> spec_decode_ok(comp_str@),
            r matches Ok(m) ==> {
                &&& code_type(comp_str@[0]) == Some(m.message_type)
                &&& m.params.deep_view() == spec_decoded_params(comp_str@)
                &&& m.response_topics.deep_view() == spec_decoded_topics(comp_str@)
                &&& m.sender@ == spec_decoded_sender(comp_str@)
                &&& m.text@ == spec_decoded_text(comp_str@)
            },
            comp_str@.len() < 3 ==> r == Result::<Message, MessageCompressionError>::Err(
                MessageCompressionError::DecompressionError,
            ),
            comp_str@.len() >= 3 && code_type(comp_str@[0]) is None ==> (r matches Err(e)
                && e matches MessageCompressionError::MessageType(c) && c@ == seq![comp_str@[0]]
                + " is not a valid MessageType."@),
            comp_str@.len() >= 3 && code_type(comp_str@[0]) is Some && !spec_decode_ok(comp_str@)
                ==> (r matches Err(e) && e matches MessageCompressionError::FieldNotFound(f) && ({
                let toks = spec_tokens(comp_str@);
                let p = spec_param_count(comp_str@);
                let t = spec_topic_count(comp_str@);
                &&& (toks.len() < 2 * p ==> f@ == "params"@)
                &&& (2 * p <= toks.len() < 2 * p + t ==> f@ == "response_topics"@)
                &&& (2 * p + t <= toks.len() ==> f@ == "sender"@)
            })),
    {
        let n = comp_str.unicode_len();
        if n < 3 {
            return Err(MessageCompressionError::DecompressionError);
        }
        let message_type = match MessageType::decompress(comp_str.get_char(0)) {
            Ok(t) => t,
            Err(e) => {
                return Err(MessageCompressionError::MessageType(e));
            },
        };
        let params_size = (comp_str.get_char(1) as u8) as usize;
        let response_topics_size = (comp_str.get_char(2) as u8) as usize;
        let rest = comp_str.substring_char(3, n);
        proof {
            assert(rest@ =~= comp_str@.skip(3));
        }
        let tokens = split_str(rest, '\u{0}');
        proof {
            assert(tokens.deep_view() =~~= spec_tokens(comp_str@));
            assert(tokens@.len() == tokens.deep_view().len());
        }
        if tokens.len() < 2 * params_size + response_topics_size + 1 {
            let field: &str = if tokens.len() < 2 * params_size {
                "params"
            } else if tokens.len() < 2 * params_size + response_topics_size {
                "response_topics"
            } else {
                "sender"
            };
            return Err(MessageCompressionError::FieldNotFound(String::from_str(field)));
        }
        let mut params: Vec<(String, String)> = Vec::new();
        let mut i: usize = 0;
        while i < params_size
            invariant
                i <= params_size,
                2 * params_size + response_topics_size + 1 <= tokens@.len(),
                tokens.deep_view() == spec_tokens(comp_str@),
                params_size == spec_param_count(comp_str@),
                params@.len() == i,
                forall|j: int| #![trigger params@[j]] 0 <= j < i ==> params@[j].0@ == spec_tokens(
                    comp_str@,
                )[2 * j] && params@[j].1@ == spec_tokens(comp_str@)[2 * j + 1],
            decreases params_size - i,
        {
            params.push((tokens[2 * i].clone(), tokens[2 * i + 1].clone()));
            i += 1;
        }
        proof {
            assert(params.deep_view() =~~= spec_decoded_params(comp_str@));
        }
        let mut response_topics: Vec<String> = Vec::new();
        let mut k: usize = 0;
        while k < response_topics_size
            invariant
                k <= response_topics_size,
                2 * params_size + response_topics_size + 1 <= tokens@.len(),
                tokens.deep_view() == spec_tokens(comp_str@),
                params_size == spec_param_count(comp_str@),
                response_topics_size == spec_topic_count(comp_str@),
                response_topics@.len() == k,
                forall|j: int| #![trigger response_topics@[j]] 0 <= j < k ==> response_topics@[j]@
                    == spec_tokens(comp_str@)[2 * params_size + j],
            decreases response_topics_size - k,
        {
            response_topics.push(tokens[2 * params_size + k].clone());
            k += 1;
        }
        proof {
            assert(response_topics.deep_view() =~~= spec_decoded_topics(comp_str@));
        }
        let sender = tokens[2 * params_size + response_topics_size].clone();
        let mut text = String::new();
        join_from(&tokens, 2 * params_size + response_topics_size + 1, '\u{0}', &mut text);
        proof {
            assert(text@ =~= spec_decoded_text(comp_str@));
        }
        Ok(Message { message_type, params, response_topics, sender, text })
    }

    /// Consumes the front of the reply chain: the returned topic is the next
    /// reply destination, and the returned message carries the rest of the
    /// chain, the given text and type, this message's sender and no params.
    /// An exhausted chain is a `ReplyError`.
    pub fn reply(&self, text: String, message_type: MessageType) -> (r: Result<
        (String, Message),
        Error,
    >)
        ensures
            r is Ok <==> self.response_topics@.len() > 0,
            r matches Ok((topic, m)) ==> {
                &&& topic@ == self.response_topics.deep_view()[0]
                &&& m.response_topics.deep_view() == self.response_topics.deep_view().skip(1)
                &&& m.text@ == text@
                &&& m.message_type == message_type
                &&& m.sender@ == self.sender@
                &&& m.params@ =~= Seq::<(String, String)>::empty()
            },
            r matches Err(e) ==> e is ReplyError,
    {
        if self.response_topics.len() == 0 {
            return Err(Error::ReplyError);
        }
        let mut response_topics: Vec<String> = Vec::new();
        let mut i: usize = 1;
        while i < self.response_topics.len()
            invariant
                1 <= i <= self.response_topics.len(),
                response_topics@.len() == i - 1,
                forall|j: int| 0 <= j < i - 1 ==> response_topics@[j] == self.response_topics@[j
                    + 1],
            decreases self.response_topics.len() - i,
        {
            response_topics.push(self.response_topics[i].clone());
            i += 1;
        }
        let topic = self.response_topics[0].clone();
        proof {
            assert(response_topics@ =~= self.response_topics@.skip(1));
            assert(response_topics.deep_view() =~~= self.response_topics.deep_view().skip(1));
        }
        let response = Message {
            text,
            response_topics,
            sender: self.sender.clone(),
            message_type,
            params: Vec::new(),
        };
        Ok((topic, response))
    }
}

} // verus!
