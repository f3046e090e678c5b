//! The `<dependencies>` section of a POM, read from the event stream of
//! `quick_xml`.
use vstd::prelude::*;
use crate::resolver::{Dependency, DepText, deps_text};
use crate::text::{chars_eq, chars_of, string_of, trim, trim_chars};
use quick_xml::events::Event;
use quick_xml::reader::Reader;

verus! {

#[verifier::external_type_specification]
#[verifier::external_body]
#[verifier::reject_recursive_types(R)]
pub struct ExXmlReader<R>(quick_xml::reader::Reader<R>);

#[verifier::external_type_specification]
#[verifier::external_body]
pub struct ExXmlError(quick_xml::Error);

/// One event of an XML document, as far as the POM reading needs it: tag
/// names, raw text, the end of the document, and everything else.
#[derive(Debug)]
pub enum XmlEvent {
    Start(String),
    End(String),
    Text(String),
    Eof,
    Other,
}

/// Why a POM could not be read.
#[derive(Debug)]
pub enum PomError {
    /// `quick_xml` rejected the document; its message.
    Xml(String),
    /// The reader produced more events than the document has bytes, which
    /// a reader that consumes input at every event never does.
    Runaway,
}

/// A `quick_xml` reader over a text, with what has been asked of it so
/// far: the text it reads, whether it trims text events, and how many events
/// it has handed out.
struct XmlCursor<'a> {
    reader: Reader<&'a [u8]>,
    text: Ghost<Seq<char>>,
    trim: Ghost<bool>,
    read: Ghost<nat>,
}

/// The outcome of the `index`-th call of `Reader::read_event_into` on a
/// reader made by `Reader::from_str(text)`, configured with
/// `trim_text(trim)` before its first event: the event (tag name, raw text,
/// end of document or anything else), or `None` when the reader reports an
/// error.
pub uninterp spec fn xml_event_at(text: Seq<char>, trim: bool, index: nat) -> Option<XmlEvent>;

/// `quick_xml::reader::Reader::from_str`: a reader at the start of `s`,
/// with the default configuration, which does not trim text.
#[verifier::external_body]
fn xml_reader_from_str<'a>(s: &'a str) -> (c: XmlCursor<'a>)
    ensures
        c.text@ == s@,
        c.trim@ == false,
        c.read@ == 0,
{
    XmlCursor { reader: Reader::from_str(s), text: Ghost(s@), trim: Ghost(false), read: Ghost(0) }
}

/// `Config::trim_text` on the configuration of a reader that has not read
/// yet.
#[verifier::external_body]
fn xml_trim_text(c: &mut XmlCursor, trim: bool)
    requires
        old(c).read@ == 0,
    ensures
        final(c).text@ == old(c).text@,
        final(c).trim@ == trim,
        final(c).read@ == 0,
{
    c.reader.config_mut().trim_text(trim);
}

/// `Reader::read_event_into`, keeping the event's tag name or raw text: the
/// next event of the reader's text, as `xml_event_at` names it (the buffer
/// is scratch space; what it held before does not change the event).
#[verifier::external_body]
fn xml_next_event(c: &mut XmlCursor, buf: &mut Vec<u8>) -> (r: Result<XmlEvent, quick_xml::Error>)
    ensures
        final(c).text@ == old(c).text@,
        final(c).trim@ == old(c).trim@,
        final(c).read@ == old(c).read@ + 1,
        match r {
            Ok(e) => xml_event_at(old(c).text@, old(c).trim@, old(c).read@) == Some(e),
            Err(_) => xml_event_at(old(c).text@, old(c).trim@, old(c).read@) is None,
        },
{
    match c.reader.read_event_into(buf) {
        Ok(Event::Start(e)) => Ok(XmlEvent::Start(AsRef::<str>::as_ref(&e.name()).to_string())),
        Ok(Event::End(e)) => Ok(XmlEvent::End(AsRef::<str>::as_ref(&e.name()).to_string())),
        Ok(Event::Text(e)) => Ok(XmlEvent::Text(AsRef::<str>::as_ref(&e).to_string())),
        Ok(Event::Eof) => Ok(XmlEvent::Eof),
        Ok(_) => Ok(XmlEvent::Other),
        Err(e) => Err(e),
    }
}

/// The message of a `quick_xml::Error` (its `Display`).
#[verifier::external_body]
fn xml_error_message(e: &quick_xml::Error) -> String {
    e.to_string()
}

/// How reading a whole text goes: the events before the end of the
/// document, an error of the reader, or no end within the number of events
/// allowed.
pub enum XmlScan {
    Done(Seq<XmlEvent>),
    Failed,
    Runaway,
}

/// Reads on from the events `seen`, with at most `fuel` more calls, through
/// a reader of `text` that trims text events.
pub open spec fn xml_scan_from(text: Seq<char>, seen: Seq<XmlEvent>, fuel: nat) -> XmlScan
    decreases fuel,
{
    if fuel == 0 {
        XmlScan::Runaway
    } else {
        match xml_event_at(text, true, seen.len()) {
            None => XmlScan::Failed,
            Some(XmlEvent::Eof) => XmlScan::Done(seen),
            Some(e) => xml_scan_from(text, seen.push(e), (fuel - 1) as nat),
        }
    }
}

/// Reads `text` from its start, with at most `fuel` calls.
pub open spec fn xml_scan(text: Seq<char>, fuel: nat) -> XmlScan {
    xml_scan_from(text, Seq::empty(), fuel)
}

/// The state of the POM reading: inside `<dependencies>`, inside a
/// `<dependency>`, how many elements are open inside that dependency, the
/// open tag, the fields read so far, and the dependencies completed.
pub type PomState = (bool, bool, nat, Seq<char>, DepText, Seq<DepText>);

pub open spec fn pom_start() -> PomState {
    (false, false, 0, Seq::empty(), (Seq::empty(), Seq::empty(), Seq::empty(), None), Seq::empty())
}

/// One more element open inside the current dependency.
pub open spec fn deeper(in_dep: bool, depth: nat) -> nat {
    if in_dep { depth + 1 } else { depth }
}

/// One element fewer open inside the current dependency.
pub open spec fn shallower(in_dep: bool, depth: nat) -> nat {
    if in_dep && depth > 0 { (depth - 1) as nat } else { depth }
}

/// One event of the reading. A `<dependency>` opened inside
/// `<dependencies>` starts a fresh record; its closing tag records it when
/// both group and artifact are non-empty. Text in a direct child of the
/// dependency, trimmed, fills the field named by that child's tag; text
/// deeper down (an `<exclusion>`'s coordinates) fills nothing.
pub open spec fn pom_step(st: PomState, e: XmlEvent) -> PomState {
    let (in_deps, in_dep, depth, tag, cur, found) = st;
    match e {
        XmlEvent::Start(n) => {
            if n@ == "dependencies"@ {
                (true, in_dep, deeper(in_dep, depth), n@, cur, found)
            } else if in_deps && n@ == "dependency"@ {
                (in_deps, true, 0, n@, (Seq::empty(), Seq::empty(), Seq::empty(), None), found)
            } else {
                (in_deps, in_dep, deeper(in_dep, depth), n@, cur, found)
            }
        },
        XmlEvent::End(n) => {
            if n@ == "dependencies"@ {
                (false, in_dep, shallower(in_dep, depth), Seq::empty(), cur, found)
            } else if in_deps && n@ == "dependency"@ {
                (
                    in_deps,
                    false,
                    0,
                    Seq::empty(),
                    cur,
                    if cur.0.len() > 0 && cur.1.len() > 0 {
                        found.push(cur)
                    } else {
                        found
                    },
                )
            } else {
                (in_deps, in_dep, shallower(in_dep, depth), Seq::empty(), cur, found)
            }
        },
        XmlEvent::Text(t) => {
            if in_dep && depth == 1 {
                let text = trim(t@);
                if tag == "groupId"@ {
                    (in_deps, in_dep, depth, tag, (text, cur.1, cur.2, cur.3), found)
                } else if tag == "artifactId"@ {
                    (in_deps, in_dep, depth, tag, (cur.0, text, cur.2, cur.3), found)
                } else if tag == "version"@ {
                    (in_deps, in_dep, depth, tag, (cur.0, cur.1, text, cur.3), found)
                } else if tag == "scope"@ {
                    (in_deps, in_dep, depth, tag, (cur.0, cur.1, cur.2, Some(text)), found)
                } else {
                    st
                }
            } else {
                st
            }
        },
        _ => st,
    }
}

pub open spec fn pom_run(es: Seq<XmlEvent>) -> PomState
    decreases es.len(),
{
    if es.len() == 0 {
        pom_start()
    } else {
        pom_step(pom_run(es.drop_last()), es.last())
    }
}

/// The dependencies a stream of events declares, in document order.
pub open spec fn pom_dependencies(es: Seq<XmlEvent>) -> Seq<DepText> {
    pom_run(es).5
}

fn is(s: &String, lit: &str) -> (b: bool)
    ensures
        b == (s@ == lit@),
{
    let a = chars_of(s.as_str());
    let b = chars_of(lit);
    chars_eq(a.as_slice(), b.as_slice())
}

fn tag_is(s: &Vec<char>, lit: &str) -> (b: bool)
    ensures
        b == (s@ == lit@),
{
    let b = chars_of(lit);
    chars_eq(s.as_slice(), b.as_slice())
}

/// Reads the dependencies declared by a sequence of XML events.
pub fn dependencies_from_events(events: &Vec<XmlEvent>) -> (r: Vec<Dependency>)
    ensures
        deps_text(r@) == pom_dependencies(events@),
{
    let mut in_deps = false;
    let mut in_dep = false;
    let mut depth: usize = 0;
    let mut tag: Vec<char> = Vec::new();
    let mut group: Vec<char> = Vec::new();
    let mut artifact: Vec<char> = Vec::new();
    let mut version: Vec<char> = Vec::new();
    let mut scope: Option<Vec<char>> = None;
    let mut found: Vec<Dependency> = Vec::new();
    let mut i: usize = 0;
    while i < events.len()
        invariant
            i <= events@.len(),
            depth <= i,
            pom_run(events@.take(i as int)) == (
                in_deps,
                in_dep,
                depth as nat,
                tag@,
                (
                    group@,
                    artifact@,
                    version@,
                    match scope {
                        Some(s) => Some(s@),
                        None => None,
                    },
                ),
                deps_text(found@),
            ),
        decreases events.len() - i,
    {
        assert(events@.take(i + 1).drop_last() =~= events@.take(i as int));
        assert(events@.take(i + 1).last() == events@[i as int]);
        match &events[i] {
            XmlEvent::Start(n) => {
                let nv = chars_of(n.as_str());
                if is(n, "dependencies") {
                    in_deps = true;
                    if in_dep {
                        depth = depth + 1;
                    }
                } else if in_deps && is(n, "dependency") {
                    in_dep = true;
                    depth = 0;
                    group = Vec::new();
                    artifact = Vec::new();
                    version = Vec::new();
                    scope = None;
                } else if in_dep {
                    depth = depth + 1;
                }
                tag = nv;
            },
            XmlEvent::End(n) => {
                if is(n, "dependencies") {
                    in_deps = false;
                    if in_dep && depth > 0 {
                        depth = depth - 1;
                    }
                } else if in_deps && is(n, "dependency") {
                    in_dep = false;
                    depth = 0;
                    if group.len() > 0 && artifact.len() > 0 {
                        let ghost before = found@;
                        let d = Dependency {
                            group_id: string_of(group.as_slice()),
                            artifact_id: string_of(artifact.as_slice()),
                            version: string_of(version.as_slice()),
                            scope: match &scope {
                                Some(s) => Some(string_of(s.as_slice())),
                                None => None,
                            },
                        };
                        found.push(d);
                        assert(deps_text(found@) =~= deps_text(before).push(crate::resolver::dep_text(d)));
                    }
                } else if in_dep && depth > 0 {
                    depth = depth - 1;
                }
                tag = Vec::new();
            },
            XmlEvent::Text(t) => {
                if in_dep && depth == 1 {
                    let tv = chars_of(t.as_str());
                    let text = trim_chars(tv.as_slice());
                    if tag_is(&tag, "groupId") {
                        group = text;
                    } else if tag_is(&tag, "artifactId") {
                        artifact = text;
                    } else if tag_is(&tag, "version") {
                        version = text;
                    } else if tag_is(&tag, "scope") {
                        scope = Some(text);
                    }
                }
            },
            _ => {},
        }
        i += 1;
    }
    assert(events@.take(events@.len() as int) =~= events@);
    found
}

/// Parses the dependencies declared in a POM. A reader of `quick_xml`, set
/// to trim text, reads the text up to the end of the document; at most one
/// event more than the text has bytes is asked of it. The dependencies are
/// what `pom_dependencies` reads from those events; a reader error gives
/// its message, and a reader that has not reached the end by then gives
/// `Runaway`.
pub fn parse_pom_dependencies(xml_content: &str) -> (r: Result<Vec<Dependency>, PomError>)
    ensures
        match xml_scan(xml_content@, (xml_content.len() + 1) as nat) {
            XmlScan::Done(es) => r matches Ok(d) && deps_text(d@) == pom_dependencies(es),
            XmlScan::Failed => r matches Err(PomError::Xml(_)),
            XmlScan::Runaway => r matches Err(PomError::Runaway),
        },
{
    let mut cursor = xml_reader_from_str(xml_content);
    xml_trim_text(&mut cursor, true);
    let mut events: Vec<XmlEvent> = Vec::new();
    let mut buf: Vec<u8> = Vec::new();
    let budget: u128 = xml_content.len() as u128 + 1;
    let mut n: u128 = 0;
    let ghost text = xml_content@;
    let ghost total = (xml_content.len() + 1) as nat;
    loop
        invariant_except_break
            n <= budget,
            budget <= usize::MAX as u128 + 1,
            budget == total,
            text == xml_content@,
            total == (xml_content.len() + 1) as nat,
            cursor.text@ == text,
            cursor.trim@ == true,
            cursor.read@ == events@.len(),
            events@.len() == n,
            xml_scan_from(text, events@, (budget - n) as nat) == xml_scan(text, total),
        ensures
            xml_scan(text, total) == XmlScan::Done(events@),
        decreases budget - n,
    {
        if n >= budget {
            assert(xml_scan_from(text, events@, (budget - n) as nat) == XmlScan::Runaway);
            return Err(PomError::Runaway);
        }
        match xml_next_event(&mut cursor, &mut buf) {
            Ok(XmlEvent::Eof) => {
                break;
            },
            Ok(e) => {
                assert(xml_scan_from(text, events@, (budget - n) as nat) == xml_scan_from(
                    text,
                    events@.push(e),
                    (budget - (n + 1)) as nat,
                ));
                events.push(e);
            },
            Err(e) => {
                assert(xml_scan_from(text, events@, (budget - n) as nat) == XmlScan::Failed);
                return Err(PomError::Xml(xml_error_message(&e)));
            },
        }
        buf.clear();
        n += 1;
    }
    let deps = dependencies_from_events(&events);
    Ok(deps)
}

} // verus!
