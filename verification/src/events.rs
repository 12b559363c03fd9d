//! The XML token stream, reduced to plain values: a start tag with its local
//! name and attributes, an end tag, character data, a general entity
//! reference by name, end of input, or a token the state machine ignores
//! (comments, declarations, processing instructions and the like). The
//! tokenizer respells references into their surrounding character data,
//! coalesces each run and trims it whole, so the state machine sees one raw
//! (still escaped) text token per text node.

use vstd::prelude::*;

use quick_xml::events::Event;

verus! {

/// One XML token. Character data is carried raw (still escaped); the state
/// machine unescapes it where the format expects text. The tokenizer folds
/// `Ref` tokens into the character data around them, so the machine itself
/// only ever ignores them.
#[derive(Debug, Clone)]
pub enum RawEvent {
    Start { name: String, attrs: Vec<(String, String)> },
    End,
    Text(String),
    Ref(String),
    Eof,
    Other,
}

/// Mathematical value of a [`RawEvent`].
pub enum EventV {
    Start { name: Seq<char>, attrs: Seq<(Seq<char>, Seq<char>)> },
    End,
    Text(Seq<char>),
    Ref(Seq<char>),
    Eof,
    Other,
}

impl View for RawEvent {
    type V = EventV;

    open spec fn view(&self) -> EventV {
        match self {
            RawEvent::Start { name, attrs } => EventV::Start {
                name: name@,
                attrs: attrs.deep_view(),
            },
            RawEvent::End => EventV::End,
            RawEvent::Text(t) => EventV::Text(t@),
            RawEvent::Ref(n) => EventV::Ref(n@),
            RawEvent::Eof => EventV::Eof,
            RawEvent::Other => EventV::Other,
        }
    }
}

impl DeepView for RawEvent {
    type V = EventV;

    open spec fn deep_view(&self) -> EventV {
        self.view()
    }
}

/// Declares std's in-memory cursor so that it can stand as a type argument.
#[verifier::external_type_specification]
#[verifier::external_body]
#[verifier::reject_recursive_types(T)]
pub struct ExCursor<T>(std::io::Cursor<T>);

/// Declares quick_xml's streaming reader.
#[verifier::external_type_specification]
#[verifier::external_body]
#[verifier::reject_recursive_types(R)]
pub struct ExReader<R>(quick_xml::Reader<R>);

/// The bytes a reader was built over. It reads from an in-memory cursor, so
/// the bytes never change afterwards.
pub uninterp spec fn reader_data(r: quick_xml::Reader<std::io::Cursor<Vec<u8>>>) -> Seq<u8>;

/// How many tokens have been read from the reader.
pub uninterp spec fn reader_at(r: quick_xml::Reader<std::io::Cursor<Vec<u8>>>) -> int;

/// The outcome of the reading of token number `k` from these bytes (under
/// the fixed reader configuration below), reduced to plain values: the
/// reader is a deterministic parser of an in-memory buffer, so each read's
/// outcome is a function of the bytes and the count of reads before it.
pub uninterp spec fn token_at(data: Seq<u8>, k: int) -> Result<EventV, ()>;

/// Relies on quick_xml's Reader::from_reader and Config: a forward-only
/// token reader over the bytes, with empty elements expanded into a start
/// and an end tag, and end-tag names checked against their start tags.
/// Character data comes back raw, whitespace included; the tokenizer below
/// trims whole runs itself. Nothing has been read yet.
#[verifier::external_body]
fn reader_from_bytes(data: Vec<u8>) -> (r: quick_xml::Reader<std::io::Cursor<Vec<u8>>>)
    ensures
        reader_data(r) == data@,
        reader_at(r) == 0,
{
    let mut r = quick_xml::Reader::from_reader(std::io::Cursor::new(data));
    r.config_mut().expand_empty_elements = true;
    r
}

/// Declares quick_xml's start-tag token.
#[verifier::external_type_specification]
#[verifier::external_body]
pub struct ExBytesStart<'a>(quick_xml::events::BytesStart<'a>);

/// Relies on quick_xml's BytesStart::local_name and BytesStart::attributes:
/// a start tag reduced to plain values — its local (namespace-stripped) name
/// and its attribute pairs as they stand; a malformed attribute list comes
/// back as the error text.
#[verifier::external_body]
fn start_to_event(s: &quick_xml::events::BytesStart<'_>) -> (r: Result<RawEvent, String>)
{
    let pairs = s.attributes().map(
        |a| a.map(|a| (a.key.as_ref().to_owned(), a.value.into_owned())),
    ).collect::<Result<Vec<(String, String)>, _>>();
    match pairs {
        Ok(attrs) => Ok(RawEvent::Start { name: s.local_name().as_ref().to_owned(), attrs }),
        Err(e) => Err(e.to_string()),
    }
}

/// Relies on quick_xml's Reader::read_event_into: the next token, reduced to
/// plain values; malformed XML comes back as the error text. A general
/// entity reference is handed back by its name; the tokenizer respells it
/// into the surrounding character data, so that unescaping resolves it. One
/// call reads one token, whose outcome is [`token_at`] of the bytes and the
/// read count.
#[verifier::external_body]
fn read_raw_event(r: &mut quick_xml::Reader<std::io::Cursor<Vec<u8>>>) -> (res: Result<
    RawEvent,
    String,
>)
    ensures
        reader_data(*final(r)) == reader_data(*old(r)),
        reader_at(*final(r)) == reader_at(*old(r)) + 1,
        res matches Ok(ev) ==> token_at(reader_data(*old(r)), reader_at(*old(r))) matches Ok(tv)
            && tv == ev@,
        res is Err ==> token_at(reader_data(*old(r)), reader_at(*old(r))) is Err,
{
    let mut buf: Vec<u8> = Vec::new();
    match r.read_event_into(&mut buf) {
        Err(e) => Err(e.to_string()),
        Ok(Event::Start(s)) => start_to_event(&s),
        Ok(Event::End(_)) => Ok(RawEvent::End),
        Ok(Event::Text(t)) => Ok(RawEvent::Text(t.into_inner().into_owned())),
        Ok(Event::GeneralRef(r)) => Ok(RawEvent::Ref(r.into_inner().into_owned())),
        Ok(Event::Eof) => Ok(RawEvent::Eof),
        Ok(_) => Ok(RawEvent::Other),
    }
}

/// Whether the character is XML whitespace.
pub open spec fn sp_is_xml_ws(c: char) -> bool {
    c == ' ' || c == '\t' || c == '\r' || c == '\n'
}

/// The first position at or after `i` that does not hold whitespace (or the
/// end of the text).
pub open spec fn skip_ws(s: Seq<char>, i: int) -> int
    decreases s.len() - i,
{
    if i < 0 || i >= s.len() || !sp_is_xml_ws(s[i]) {
        i
    } else {
        skip_ws(s, i + 1)
    }
}

/// The position after the last non-whitespace character before `j` (or the
/// start of the text).
pub open spec fn skip_ws_back(s: Seq<char>, j: int) -> int
    decreases j,
{
    if j <= 0 || j > s.len() {
        j
    } else if !sp_is_xml_ws(s[j - 1]) {
        j
    } else {
        skip_ws_back(s, j - 1)
    }
}

/// The text with its leading and trailing whitespace removed.
pub open spec fn sp_trim(s: Seq<char>) -> Seq<char> {
    let a = skip_ws(s, 0);
    let b = skip_ws_back(s, s.len() as int);
    if a >= b {
        Seq::empty()
    } else {
        s.subrange(a, b)
    }
}

/// Executable counterpart of [`sp_trim`].
fn trim_ws(s: &str) -> (r: String)
    ensures
        r@ == sp_trim(s@),
{
    let n = s.unicode_len();
    let mut a: usize = 0;
    loop
        invariant
            a <= n,
            n == s@.len(),
            skip_ws(s@, 0) == skip_ws(s@, a as int),
        ensures
            a <= n,
            n == s@.len(),
            skip_ws(s@, 0) == a as int,
        decreases n - a,
    {
        if a < n {
            let c = s.get_char(a);
            if c == ' ' || c == '\t' || c == '\r' || c == '\n' {
                a += 1;
            } else {
                proof {
                    assert(skip_ws(s@, a as int) == a as int);
                }
                break;
            }
        } else {
            proof {
                assert(skip_ws(s@, a as int) == a as int);
            }
            break;
        }
    }
    let mut b: usize = n;
    loop
        invariant
            b <= n,
            n == s@.len(),
            skip_ws_back(s@, n as int) == skip_ws_back(s@, b as int),
        ensures
            b <= n,
            n == s@.len(),
            skip_ws_back(s@, n as int) == b as int,
        decreases b,
    {
        if b > 0 {
            let c = s.get_char(b - 1);
            if c == ' ' || c == '\t' || c == '\r' || c == '\n' {
                b -= 1;
            } else {
                proof {
                    assert(skip_ws_back(s@, b as int) == b as int);
                }
                break;
            }
        } else {
            proof {
                assert(skip_ws_back(s@, b as int) == b as int);
            }
            break;
        }
    }
    if a >= b {
        proof {
            assert(sp_trim(s@) =~= Seq::<char>::empty());
        }
        String::new()
    } else {
        let piece = s.substring_char(a, b);
        piece.to_owned()
    }
}

/// One run of character data appended to a token sequence, coalesced with a
/// directly trailing run.
pub open spec fn sp_push_text(acc: Seq<EventV>, t: Seq<char>) -> Seq<EventV> {
    if acc.len() > 0 && acc.last() is Text {
        acc.drop_last().push(EventV::Text(acc.last()->Text_0 + t))
    } else {
        acc.push(EventV::Text(t))
    }
}

/// A finished run of character data, trimmed whole: once the run can grow
/// no further, its surrounding whitespace goes, and a run of nothing but
/// whitespace disappears entirely.
pub open spec fn sp_flush_text(acc: Seq<EventV>) -> Seq<EventV> {
    if acc.len() > 0 && acc.last() is Text {
        let t = sp_trim(acc.last()->Text_0);
        if t.len() == 0 {
            acc.drop_last()
        } else {
            acc.drop_last().push(EventV::Text(t))
        }
    } else {
        acc
    }
}

/// The whole token stream of these bytes, read from token `k` on into `acc`:
/// every token up to and including the end-of-input marker, with adjacent
/// runs of character data coalesced and each whole run trimmed; a failed
/// read is a failed tokenization. The fuel bounds the reads left — each
/// token before the end-of-input marker consumes at least one byte, so a
/// sound bound exists.
pub open spec fn sp_tokenize(data: Seq<u8>, k: int, acc: Seq<EventV>, fuel: nat) -> Result<
    Seq<EventV>,
    (),
>
    decreases fuel,
{
    if fuel == 0 {
        Err(())
    } else {
        match token_at(data, k) {
            Err(u) => Err(()),
            Ok(ev) => match ev {
                EventV::Eof => Ok(sp_flush_text(acc).push(EventV::Eof)),
                EventV::Text(t) => sp_tokenize(data, k + 1, sp_push_text(acc, t), (fuel - 1) as nat),
                EventV::Ref(nm) => sp_tokenize(
                    data,
                    k + 1,
                    sp_push_text(acc, "&"@ + nm + ";"@),
                    (fuel - 1) as nat,
                ),
                _ => sp_tokenize(data, k + 1, sp_flush_text(acc).push(ev), (fuel - 1) as nat),
            },
        }
    }
}

/// What tokenizing these bytes yields: the token stream through the
/// end-of-input marker, or a failure on malformed input (also when the
/// stream would outrun its byte count, which no real reading does).
pub open spec fn sp_tokens(data: Seq<u8>) -> Result<Seq<EventV>, ()> {
    sp_tokenize(data, 0, Seq::empty(), (data.len() + 1) as nat)
}

/// Append one run of character data, coalescing it with a directly
/// preceding run: the reader hands text back in chunks around entity
/// references, and the state machine expects each text node whole.
fn push_text(evs: &mut Vec<RawEvent>, t: String)
    ensures
        final(evs).deep_view() == sp_push_text(old(evs).deep_view(), t@),
{
    let ghost accv: Seq<EventV> = evs.deep_view();
    let ghost tv: Seq<char> = t@;
    let tail_is_text = match evs.last() {
        Some(RawEvent::Text(_)) => true,
        _ => false,
    };
    proof {
        if evs@.len() > 0 {
            assert(accv.last() == evs@[evs@.len() - 1]@);
        }
    }
    if tail_is_text {
        match evs.pop() {
            Some(RawEvent::Text(prev)) => {
                proof {
                    assert(evs.deep_view() =~= accv.drop_last());
                    assert(accv.last() == EventV::Text(prev@));
                }
                let ghost pv: Seq<char> = prev@;
                let mut merged = prev;
                merged.append(t.as_str());
                let ghost mergedv: Seq<char> = merged@;
                evs.push(RawEvent::Text(merged));
                proof {
                    assert(mergedv == pv + tv);
                    assert(evs.deep_view() =~= accv.drop_last().push(EventV::Text(mergedv)));
                }
            },
            _ => {
                proof {
                    assert(false);
                }
            },
        }
    } else {
        evs.push(RawEvent::Text(t));
        proof {
            assert(evs.deep_view() =~= accv.push(EventV::Text(tv)));
        }
    }
}

/// Finish a run of character data: trim it whole, and drop it when nothing
/// but whitespace remains.
fn flush_text(evs: &mut Vec<RawEvent>)
    ensures
        final(evs).deep_view() == sp_flush_text(old(evs).deep_view()),
{
    let ghost accv: Seq<EventV> = evs.deep_view();
    let tail_is_text = match evs.last() {
        Some(RawEvent::Text(_)) => true,
        _ => false,
    };
    proof {
        if evs@.len() > 0 {
            assert(accv.last() == evs@[evs@.len() - 1]@);
        }
    }
    if tail_is_text {
        match evs.pop() {
            Some(RawEvent::Text(raw)) => {
                proof {
                    assert(evs.deep_view() =~= accv.drop_last());
                    assert(accv.last() == EventV::Text(raw@));
                }
                let t = trim_ws(raw.as_str());
                if !t.as_str().is_empty() {
                    let ghost tv: Seq<char> = t@;
                    evs.push(RawEvent::Text(t));
                    proof {
                        assert(evs.deep_view() =~= accv.drop_last().push(EventV::Text(tv)));
                    }
                }
            },
            _ => {
                proof {
                    assert(false);
                }
            },
        }
    }
}

/// Read the whole token stream of one document into memory: exactly
/// [`sp_tokens`] of the bytes. On success the sequence is non-empty and its
/// last token is the end-of-input marker.
pub fn tokenize(data: Vec<u8>) -> (r: Result<Vec<RawEvent>, String>)
    ensures
        match r {
            Ok(evs) => (sp_tokens(data@) matches Ok(tv) && tv == evs.deep_view()) && evs@.len()
                > 0 && evs@[evs@.len() - 1] is Eof,
            Err(_) => sp_tokens(data@) is Err,
        },
{
    let ghost dv: Seq<u8> = data@;
    let limit = data.len();
    let mut rd = reader_from_bytes(data);
    let mut evs: Vec<RawEvent> = Vec::new();
    proof {
        assert(evs.deep_view() =~= Seq::<EventV>::empty());
    }
    // Every token before the end-of-input marker consumes at least one byte,
    // so the stream cannot outrun its input.
    for k in 0..limit
        invariant
            dv == data@,
            limit == dv.len(),
            reader_data(rd) == dv,
            reader_at(rd) == k as int,
            sp_tokens(dv) == sp_tokenize(dv, k as int, evs.deep_view(), (dv.len() + 1 - k) as nat),
    {
        let ghost accv: Seq<EventV> = evs.deep_view();
        let ghost fuel: nat = (dv.len() + 1 - k) as nat;
        match read_raw_event(&mut rd) {
            Err(e) => {
                proof {
                    assert(sp_tokenize(dv, k as int, accv, fuel) == Err::<Seq<EventV>, ()>(()));
                }
                return Err(e);
            },
            Ok(ev) => {
                let ghost evv: EventV = ev@;
                match ev {
                    RawEvent::Eof => {
                        proof {
                            assert(sp_tokenize(dv, k as int, accv, fuel) == Ok::<Seq<EventV>, ()>(
                                sp_flush_text(accv).push(EventV::Eof),
                            ));
                        }
                        flush_text(&mut evs);
                        let ghost mid: Seq<EventV> = evs.deep_view();
                        evs.push(RawEvent::Eof);
                        proof {
                            assert(evs.deep_view() =~= mid.push(EventV::Eof));
                            assert(evs@[evs@.len() - 1] is Eof);
                        }
                        return Ok(evs);
                    },
                    RawEvent::Text(t) => {
                        proof {
                            assert(evv == EventV::Text(t@));
                            assert(sp_tokenize(dv, k as int, accv, fuel) == sp_tokenize(
                                dv,
                                k as int + 1,
                                sp_push_text(accv, t@),
                                (fuel - 1) as nat,
                            ));
                        }
                        push_text(&mut evs, t);
                    },
                    RawEvent::Ref(nm) => {
                        // Respell the reference as it stood in the source, so
                        // that unescaping the whole run resolves it.
                        let mut t = "&".to_owned();
                        t.append(nm.as_str());
                        t.append(";");
                        proof {
                            assert(evv == EventV::Ref(nm@));
                            assert(t@ == "&"@ + nm@ + ";"@);
                            assert(sp_tokenize(dv, k as int, accv, fuel) == sp_tokenize(
                                dv,
                                k as int + 1,
                                sp_push_text(accv, "&"@ + nm@ + ";"@),
                                (fuel - 1) as nat,
                            ));
                        }
                        push_text(&mut evs, t);
                    },
                    other_ev => {
                        let ghost pushed: RawEvent = other_ev;
                        proof {
                            assert(sp_tokenize(dv, k as int, accv, fuel) == sp_tokenize(
                                dv,
                                k as int + 1,
                                sp_flush_text(accv).push(evv),
                                (fuel - 1) as nat,
                            ));
                        }
                        flush_text(&mut evs);
                        let ghost mid: Seq<EventV> = evs.deep_view();
                        evs.push(other_ev);
                        proof {
                            assert(evs.deep_view() =~= mid.push(pushed@));
                        }
                    },
                }
            },
        }
    }
    let ghost accv: Seq<EventV> = evs.deep_view();
    proof {
        assert((dv.len() + 1 - limit) as nat == 1nat);
    }
    match read_raw_event(&mut rd) {
        Err(e) => {
            proof {
                assert(sp_tokenize(dv, limit as int, accv, 1nat) == Err::<Seq<EventV>, ()>(()));
            }
            Err(e)
        },
        Ok(ev) => {
            let ghost evv: EventV = ev@;
            match ev {
                RawEvent::Eof => {
                    proof {
                        assert(sp_tokenize(dv, limit as int, accv, 1nat) == Ok::<Seq<EventV>, ()>(
                            sp_flush_text(accv).push(EventV::Eof),
                        ));
                    }
                    flush_text(&mut evs);
                    let ghost mid: Seq<EventV> = evs.deep_view();
                    evs.push(RawEvent::Eof);
                    proof {
                        assert(evs.deep_view() =~= mid.push(EventV::Eof));
                        assert(evs@[evs@.len() - 1] is Eof);
                    }
                    Ok(evs)
                },
                _ => {
                    proof {
                        match evv {
                            EventV::Text(t) => {
                                assert(sp_tokenize(dv, limit as int + 1, sp_push_text(accv, t), 0nat)
                                    == Err::<Seq<EventV>, ()>(()));
                            },
                            EventV::Ref(nm) => {
                                assert(sp_tokenize(
                                    dv,
                                    limit as int + 1,
                                    sp_push_text(accv, "&"@ + nm + ";"@),
                                    0nat,
                                ) == Err::<Seq<EventV>, ()>(()));
                            },
                            _ => {
                                assert(sp_tokenize(
                                    dv,
                                    limit as int + 1,
                                    sp_flush_text(accv).push(evv),
                                    0nat,
                                ) == Err::<Seq<EventV>, ()>(()));
                            },
                        }
                        assert(sp_tokenize(dv, limit as int, accv, 1nat) == Err::<Seq<EventV>, ()>(
                            (),
                        ));
                    }
                    Err("the token stream outran its input".to_owned())
                },
            }
        },
    }
}

} // verus!
