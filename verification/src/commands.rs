//! Command packets: two equal-length ordered sequences — command tags and
//! serialized payloads — positionally paired (payload `i` belongs to tag
//! `i`). Nothing binds a tag to a payload shape; correct decoding rests on
//! the positional agreement between producer and consumer.
//!
//! A packet travels as one unit of text: each entry is its tag letter, the
//! payload with `\` and `;` escaped by a leading `\`, and a closing `;`.
//! Decoding inverts this exactly; [`lemma_decode_encode`] proves that a
//! packet encoded then decoded keeps tag order, payload order and count.

use vstd::prelude::*;

verus! {

/// Identifies which downstream handler should interpret a payload.
#[derive(Debug, Clone, Copy, PartialEq, Eq, Structural)]
pub enum CommandType {
    /// System command: set the system mode.
    SetSysMode,
    /// Control command: set the control state.
    SetControlState,
    /// Autopilot command: set the autopilot state.
    SetAPState,
}

/// Parallel-array command packet: `values[i]` is the serialized payload of
/// `commands[i]`. The two sequences have equal length by construction.
#[derive(Debug, Clone)]
pub struct CommandPacket {
    pub commands: Vec<CommandType>,
    pub values: Vec<String>,
}

/// The tag letter that stands for a command type on the wire.
pub open spec fn tag_char(t: CommandType) -> char {
    match t {
        CommandType::SetSysMode => 'M',
        CommandType::SetControlState => 'C',
        CommandType::SetAPState => 'A',
    }
}

/// The command type a tag letter stands for, if any.
pub open spec fn char_tag(c: char) -> Option<CommandType> {
    if c == 'M' {
        Some(CommandType::SetSysMode)
    } else if c == 'C' {
        Some(CommandType::SetControlState)
    } else if c == 'A' {
        Some(CommandType::SetAPState)
    } else {
        None
    }
}

/// The two characters that must be escaped inside a payload: the escape
/// character itself and the entry terminator.
pub open spec fn is_special(c: char) -> bool {
    c == '\\' || c == ';'
}

/// A payload with every special character preceded by a backslash.
pub open spec fn escape(s: Seq<char>) -> Seq<char>
    decreases s.len(),
{
    if s.len() == 0 {
        Seq::empty()
    } else {
        (if is_special(s[0]) {
            seq!['\\', s[0]]
        } else {
            seq![s[0]]
        }) + escape(s.skip(1))
    }
}

/// One wire entry: tag letter, escaped payload, terminator.
pub open spec fn encode_entry(t: CommandType, v: Seq<char>) -> Seq<char> {
    seq![tag_char(t)] + escape(v) + seq![';']
}

/// The whole packet on the wire: its entries in order, nothing else.
pub open spec fn encode_packet(tags: Seq<CommandType>, vals: Seq<Seq<char>>) -> Seq<char>
    decreases tags.len(),
{
    if tags.len() == 0 {
        Seq::empty()
    } else {
        encode_entry(tags[0], vals[0]) + encode_packet(tags.skip(1), vals.skip(1))
    }
}

/// Read one escaped payload off the front of `s`, up to its unescaped
/// terminator: the payload and what follows the terminator, or `None` when
/// the terminator is missing or an escape dangles at the end.
pub open spec fn unescape_prefix(s: Seq<char>) -> Option<(Seq<char>, Seq<char>)>
    decreases s.len(),
{
    if s.len() == 0 {
        None
    } else if s[0] == ';' {
        Some((Seq::empty(), s.skip(1)))
    } else if s[0] == '\\' {
        if s.len() >= 2 {
            match unescape_prefix(s.skip(2)) {
                Some(pr) => Some((seq![s[1]] + pr.0, pr.1)),
                None => None,
            }
        } else {
            None
        }
    } else {
        match unescape_prefix(s.skip(1)) {
            Some(pr) => Some((seq![s[0]] + pr.0, pr.1)),
            None => None,
        }
    }
}

/// Whatever `unescape_prefix` leaves behind is strictly shorter than its
/// input: at least the terminator was consumed.
pub proof fn lemma_unescape_prefix_shrinks(s: Seq<char>)
    ensures
        match unescape_prefix(s) {
            Some(pr) => pr.1.len() < s.len(),
            None => true,
        },
    decreases s.len(),
{
    if s.len() == 0 {
    } else if s[0] == ';' {
    } else if s[0] == '\\' {
        if s.len() >= 2 {
            lemma_unescape_prefix_shrinks(s.skip(2));
        }
    } else {
        lemma_unescape_prefix_shrinks(s.skip(1));
    }
}

/// Parse a whole wire text back into tag and payload sequences: entries in
/// order until the text ends, or `None` on the first malformed entry.
pub open spec fn decode_packet(s: Seq<char>) -> Option<(Seq<CommandType>, Seq<Seq<char>>)>
    decreases s.len(),
{
    if s.len() == 0 {
        Some((Seq::empty(), Seq::empty()))
    } else {
        match char_tag(s[0]) {
            None => None,
            Some(t) => match unescape_prefix(s.skip(1)) {
                None => None,
                Some(pr) => {
                    proof {
                        lemma_unescape_prefix_shrinks(s.skip(1));
                    }
                    match decode_packet(pr.1) {
                        None => None,
                        Some(rest) => Some((seq![t] + rest.0, seq![pr.0] + rest.1)),
                    }
                },
            },
        }
    }
}

/// Escaping one character either doubles it or passes it through.
pub proof fn lemma_escape_singleton(c: char)
    ensures
        escape(seq![c]) == (if is_special(c) {
            seq!['\\', c]
        } else {
            seq![c]
        }),
{
    let s = seq![c];
    assert(s.skip(1) =~= Seq::<char>::empty());
    assert(escape(Seq::<char>::empty()) =~= Seq::<char>::empty());
    if is_special(c) {
        assert(escape(s) =~= seq!['\\', c] + escape(s.skip(1)));
        assert(seq!['\\', c] + Seq::<char>::empty() =~= seq!['\\', c]);
    } else {
        assert(escape(s) =~= seq![c] + escape(s.skip(1)));
        assert(seq![c] + Seq::<char>::empty() =~= seq![c]);
    }
}

/// Escaping distributes over concatenation.
pub proof fn lemma_escape_app(a: Seq<char>, b: Seq<char>)
    ensures
        escape(a + b) == escape(a) + escape(b),
    decreases a.len(),
{
    if a.len() == 0 {
        assert(a + b =~= b);
        assert(escape(a) + escape(b) =~= escape(b));
    } else {
        assert((a + b).skip(1) =~= a.skip(1) + b);
        lemma_escape_app(a.skip(1), b);
        assert(escape(a + b) =~= escape(a) + escape(b));
    }
}

/// Unescaping inverts escaping: an escaped payload, its terminator and any
/// tail parse back into exactly that payload and that tail.
pub proof fn lemma_unescape_escape(v: Seq<char>, rest: Seq<char>)
    ensures
        unescape_prefix(escape(v) + seq![';'] + rest) == Some((v, rest)),
    decreases v.len(),
{
    let s = escape(v) + seq![';'] + rest;
    if v.len() == 0 {
        assert(s[0] == ';');
        assert(s.skip(1) =~= rest);
    } else {
        lemma_unescape_escape(v.skip(1), rest);
        if is_special(v[0]) {
            assert(escape(v) =~= seq!['\\', v[0]] + escape(v.skip(1)));
            assert(s[0] == '\\');
            assert(s[1] == v[0]);
            assert(s.len() >= 2);
            assert(s.skip(2) =~= escape(v.skip(1)) + seq![';'] + rest);
            assert(seq![s[1]] + v.skip(1) =~= v);
        } else {
            assert(escape(v) =~= seq![v[0]] + escape(v.skip(1)));
            assert(s[0] == v[0]);
            assert(s[0] != ';' && s[0] != '\\');
            assert(s.skip(1) =~= escape(v.skip(1)) + seq![';'] + rest);
            assert(seq![s[0]] + v.skip(1) =~= v);
        }
    }
}

/// Round trip: a packet encoded then decoded preserves tag order, payload
/// order and count exactly.
pub proof fn lemma_decode_encode(tags: Seq<CommandType>, vals: Seq<Seq<char>>)
    requires
        tags.len() == vals.len(),
    ensures
        decode_packet(encode_packet(tags, vals)) == Some((tags, vals)),
    decreases tags.len(),
{
    if tags.len() == 0 {
        assert(encode_packet(tags, vals) =~= Seq::<char>::empty());
    } else {
        let s = encode_packet(tags, vals);
        let tail = encode_packet(tags.skip(1), vals.skip(1));
        assert(s =~= seq![tag_char(tags[0])] + escape(vals[0]) + seq![';'] + tail);
        assert(s[0] == tag_char(tags[0]));
        assert(char_tag(tag_char(tags[0])) == Some(tags[0]));
        assert(s.skip(1) =~= escape(vals[0]) + seq![';'] + tail);
        lemma_unescape_escape(vals[0], tail);
        lemma_decode_encode(tags.skip(1), vals.skip(1));
        assert(seq![tags[0]] + tags.skip(1) =~= tags);
        assert(seq![vals[0]] + vals.skip(1) =~= vals);
    }
}

/// Relies on `String::push`: appends one character to the end of the string.
pub assume_specification[ String::push ](s: &mut String, c: char)
    ensures
        final(s)@ == old(s)@.push(c),
;

impl CommandPacket {
    /// The parallel arrays are positionally paired: equal length.
    pub open spec fn wf(&self) -> bool {
        self.commands@.len() == self.values@.len()
    }

    /// An empty packet: no tags, no payloads.
    pub fn new() -> (p: Self)
        ensures
            p.commands@ == Seq::<CommandType>::empty(),
            p.values@ == Seq::<String>::empty(),
            p.wf(),
    {
        CommandPacket { commands: Vec::<CommandType>::new(), values: Vec::<String>::new() }
    }

    /// Append a command tag and its already-serialized payload as a
    /// positionally paired entry. Nothing checks that the payload's shape
    /// suits the tag.
    pub fn add(&mut self, cmdtype: CommandType, data: String)
        ensures
            final(self).commands@ == old(self).commands@.push(cmdtype),
            final(self).values@ == old(self).values@.push(data),
            old(self).wf() ==> final(self).wf(),
    {
        self.commands.push(cmdtype);
        self.values.push(data);
    }

    /// Serialize the whole packet — tag sequence and payload sequence — as
    /// one unit of text.
    #[verifier::loop_isolation(false)]
    pub fn encode(&self) -> (r: String)
        requires
            self.wf(),
        ensures
            r@ == encode_packet(self.commands@, self.values.deep_view()),
    {
        let ghost tags = self.commands@;
        let ghost vals = self.values.deep_view();
        let mut out = String::new();
        let n = self.commands.len();
        proof {
            assert(tags.take(0) =~= Seq::<CommandType>::empty());
            assert(encode_packet(tags.take(0), vals.take(0)) =~= Seq::<char>::empty());
        }
        let mut i: usize = 0;
        while i < n
            invariant
                i <= n,
                out@ == encode_packet(tags.take(i as int), vals.take(i as int)),
            decreases n - i,
        {
            let ghost base0 = out@;
            match self.commands[i] {
                CommandType::SetSysMode => out.push('M'),
                CommandType::SetControlState => out.push('C'),
                CommandType::SetAPState => out.push('A'),
            }
            proof {
                assert(out@ =~= base0 + seq![tag_char(tags[i as int])]);
            }
            let value: &String = &self.values[i];
            let v: &str = value.as_str();
            proof {
                assert(v@ == vals[i as int]);
            }
            let m = v.unicode_len();
            let ghost base = out@;
            proof {
                assert(v@.take(0) =~= Seq::<char>::empty());
                assert(escape(v@.take(0)) =~= Seq::<char>::empty());
                assert(base + escape(v@.take(0)) =~= base);
            }
            let mut j: usize = 0;
            while j < m
                invariant
                    j <= m,
                    out@ == base + escape(v@.take(j as int)),
                decreases m - j,
            {
                let c = v.get_char(j);
                if c == '\\' || c == ';' {
                    out.push('\\');
                    out.push(c);
                } else {
                    out.push(c);
                }
                proof {
                    let pre = v@.take(j as int);
                    assert(v@.take(j + 1int) =~= pre + seq![v@[j as int]]);
                    lemma_escape_app(pre, seq![v@[j as int]]);
                    lemma_escape_singleton(v@[j as int]);
                    if is_special(v@[j as int]) {
                        assert(out@ =~= base + (escape(pre) + seq!['\\', v@[j as int]]));
                    } else {
                        assert(out@ =~= base + (escape(pre) + seq![v@[j as int]]));
                    }
                }
                j = j + 1;
            }
            out.push(';');
            proof {
                assert(v@.take(m as int) =~= vals[i as int]);
                lemma_encode_packet_take_step(tags, vals, i as int);
                assert(out@ =~= encode_packet(tags.take(i as int), vals.take(i as int))
                    + encode_entry(tags[i as int], vals[i as int]));
            }
            i = i + 1;
        }
        proof {
            assert(tags.take(n as int) =~= tags);
            assert(vals.take(n as int) =~= vals);
        }
        out
    }

    /// Parse a wire text produced by [`CommandPacket::encode`] back into a
    /// packet: `Some` exactly when every entry is well formed, preserving
    /// tag order, payload order and count.
    #[verifier::loop_isolation(false)]
    pub fn decode(s: &str) -> (r: Option<CommandPacket>)
        ensures
            decode_packet(s@) is Some ==> {
                &&& r is Some
                &&& r.unwrap().commands@ == decode_packet(s@).unwrap().0
                &&& r.unwrap().values.deep_view() == decode_packet(s@).unwrap().1
                &&& r.unwrap().wf()
            },
            decode_packet(s@) is None ==> r is None,
    {
        let len = s.unicode_len();
        let mut commands: Vec<CommandType> = Vec::new();
        let mut values: Vec<String> = Vec::new();
        proof {
            assert(s@.skip(0) =~= s@);
            assert(values.deep_view() =~= Seq::<Seq<char>>::empty());
            if decode_packet(s@) is Some {
                let tv = decode_packet(s@).unwrap();
                assert(Seq::<CommandType>::empty() + tv.0 =~= tv.0);
                assert(Seq::<Seq<char>>::empty() + tv.1 =~= tv.1);
            }
        }
        let mut i: usize = 0;
        while i < len
            invariant
                i <= len,
                commands@.len() == values@.len(),
                decode_packet(s@) == match decode_packet(s@.skip(i as int)) {
                    Some(tv) => Some((commands@ + tv.0, values.deep_view() + tv.1)),
                    None => None,
                },
            decreases len - i,
        {
            let ghost i_entry = i as int;
            let ghost entry_rest = s@.skip(i_entry);
            let ghost cmds0 = commands@;
            let ghost vals0 = values.deep_view();
            proof {
                assert(decode_packet(s@) == match decode_packet(entry_rest) {
                    Some(tv) => Some((cmds0 + tv.0, vals0 + tv.1)),
                    None => None,
                });
                assert(entry_rest.len() > 0);
            }
            let tc = s.get_char(i);
            proof {
                assert(entry_rest[0] == tc);
            }
            let tag = if tc == 'M' {
                CommandType::SetSysMode
            } else if tc == 'C' {
                CommandType::SetControlState
            } else if tc == 'A' {
                CommandType::SetAPState
            } else {
                proof {
                    assert(char_tag(entry_rest[0]) is None);
                    assert(decode_packet(entry_rest) is None);
                }
                return None;
            };
            proof {
                assert(char_tag(entry_rest[0]) == Some(tag));
            }
            i = i + 1;
            let ghost pay0 = i as int;
            proof {
                assert(entry_rest.skip(1) =~= s@.skip(pay0));
            }
            let mut val = String::new();
            proof {
                if unescape_prefix(s@.skip(pay0)) is Some {
                    let pr = unescape_prefix(s@.skip(pay0)).unwrap();
                    assert(val@ + pr.0 =~= pr.0);
                }
            }
            let mut done = false;
            while !done
                invariant
                    pay0 <= i as int <= len,
                    !done ==> unescape_prefix(s@.skip(pay0)) == match unescape_prefix(
                        s@.skip(i as int),
                    ) {
                        Some(pr) => Some((val@ + pr.0, pr.1)),
                        None => None,
                    },
                    done ==> pay0 < i as int <= len && unescape_prefix(s@.skip(pay0)) == Some(
                        (val@, s@.skip(i as int)),
                    ),
                decreases len - i,
            {
                if i == len {
                    proof {
                        assert(s@.skip(i as int) =~= Seq::<char>::empty());
                        assert(unescape_prefix(s@.skip(pay0)) is None);
                        assert(decode_packet(entry_rest) is None);
                    }
                    return None;
                }
                let ghost before = s@.skip(i as int);
                let c = s.get_char(i);
                proof {
                    assert(before[0] == c);
                }
                if c == ';' {
                    i = i + 1;
                    proof {
                        assert(before.skip(1) =~= s@.skip(i as int));
                        assert(unescape_prefix(before) == Some(
                            (Seq::<char>::empty(), s@.skip(i as int)),
                        ));
                        assert(val@ + Seq::<char>::empty() =~= val@);
                    }
                    done = true;
                } else if c == '\\' {
                    if i + 1 == len {
                        proof {
                            assert(before.len() == 1);
                            assert(unescape_prefix(before) is None);
                            assert(unescape_prefix(s@.skip(pay0)) is None);
                            assert(decode_packet(entry_rest) is None);
                        }
                        return None;
                    }
                    let c2 = s.get_char(i + 1);
                    let ghost val0 = val@;
                    val.push(c2);
                    i = i + 2;
                    proof {
                        assert(before.len() >= 2);
                        assert(before[1] == c2);
                        assert(before.skip(2) =~= s@.skip(i as int));
                        if unescape_prefix(s@.skip(i as int)) is Some {
                            let pr = unescape_prefix(s@.skip(i as int)).unwrap();
                            assert(unescape_prefix(before) == Some((seq![c2] + pr.0, pr.1)));
                            assert(val0 + (seq![c2] + pr.0) =~= val@ + pr.0);
                        } else {
                            assert(unescape_prefix(before) is None);
                        }
                    }
                } else {
                    let ghost val0 = val@;
                    val.push(c);
                    i = i + 1;
                    proof {
                        assert(before.skip(1) =~= s@.skip(i as int));
                        if unescape_prefix(s@.skip(i as int)) is Some {
                            let pr = unescape_prefix(s@.skip(i as int)).unwrap();
                            assert(unescape_prefix(before) == Some((seq![c] + pr.0, pr.1)));
                            assert(val0 + (seq![c] + pr.0) =~= val@ + pr.0);
                        } else {
                            assert(unescape_prefix(before) is None);
                        }
                    }
                }
            }
            let ghost vv = val@;
            commands.push(tag);
            values.push(val);
            proof {
                assert(values.deep_view() =~= vals0.push(vv));
                assert(unescape_prefix(entry_rest.skip(1)) == Some((vv, s@.skip(i as int))));
                if decode_packet(s@.skip(i as int)) is Some {
                    let tv = decode_packet(s@.skip(i as int)).unwrap();
                    assert(decode_packet(entry_rest) == Some((seq![tag] + tv.0, seq![vv] + tv.1)));
                    assert(cmds0 + (seq![tag] + tv.0) =~= commands@ + tv.0);
                    assert(vals0 + (seq![vv] + tv.1) =~= values.deep_view() + tv.1);
                } else {
                    assert(decode_packet(entry_rest) is None);
                }
            }
        }
        proof {
            assert(s@.skip(i as int) =~= Seq::<char>::empty());
            assert(decode_packet(s@.skip(i as int)) == Some(
                (Seq::<CommandType>::empty(), Seq::<Seq<char>>::empty()),
            ));
            assert(commands@ + Seq::<CommandType>::empty() =~= commands@);
            assert(values.deep_view() + Seq::<Seq<char>>::empty() =~= values.deep_view());
        }
        Some(CommandPacket { commands, values })
    }
}

/// Encoding one more entry extends the wire text by exactly that entry.
pub proof fn lemma_encode_packet_take_step(tags: Seq<CommandType>, vals: Seq<Seq<char>>, i: int)
    requires
        0 <= i < tags.len(),
        tags.len() == vals.len(),
    ensures
        encode_packet(tags.take(i + 1), vals.take(i + 1)) == encode_packet(
            tags.take(i),
            vals.take(i),
        ) + encode_entry(tags[i], vals[i]),
    decreases i,
{
    if i == 0 {
        assert(tags.take(0) =~= Seq::<CommandType>::empty());
        assert(vals.take(0) =~= Seq::<Seq<char>>::empty());
        assert(tags.take(1).skip(1) =~= Seq::<CommandType>::empty());
        assert(vals.take(1).skip(1) =~= Seq::<Seq<char>>::empty());
        assert(encode_packet(tags.take(1), vals.take(1)) =~= encode_entry(tags[0], vals[0]));
        assert(encode_packet(tags.take(0), vals.take(0)) + encode_entry(tags[0], vals[0])
            =~= encode_entry(tags[0], vals[0]));
    } else {
        lemma_encode_packet_take_step(tags.skip(1), vals.skip(1), i - 1);
        assert(tags.take(i + 1).skip(1) =~= tags.skip(1).take(i));
        assert(vals.take(i + 1).skip(1) =~= vals.skip(1).take(i));
        assert(tags.take(i).skip(1) =~= tags.skip(1).take(i - 1));
        assert(vals.take(i).skip(1) =~= vals.skip(1).take(i - 1));
        assert(tags.skip(1)[i - 1] == tags[i]);
        assert(vals.skip(1)[i - 1] == vals[i]);
        assert(encode_packet(tags.take(i + 1), vals.take(i + 1)) =~= encode_entry(
            tags[0],
            vals[0],
        ) + encode_packet(tags.skip(1).take(i), vals.skip(1).take(i)));
        assert(encode_packet(tags.take(i), vals.take(i)) =~= encode_entry(tags[0], vals[0])
            + encode_packet(tags.skip(1).take(i - 1), vals.skip(1).take(i - 1)));
    }
}

} // verus!
