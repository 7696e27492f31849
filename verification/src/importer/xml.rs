//! Reading XML text, with quick-xml, into the events the SVG element tree
//! is built from.
use quick_xml::events::Event::{CData, Empty, End, Eof, Start, Text};
use quick_xml::Reader;
use vstd::prelude::*;

use crate::error::Error;
use crate::importer::svg::{build_tree, event_models, tree_from, Attributes, SvgElement, XmlEvent, XmlEventModel};
use crate::text::{copy_range, lossy_utf8, utf8_lossy};

verus! {

/// One event of quick-xml's reader, as plain values.
pub enum RawXml {
    /// An opening tag: the bytes between its brackets, and how many of them
    /// spell its name.
    Start(Vec<u8>, usize),
    /// A tag that is opened and closed at once, as for `Start`.
    Empty(Vec<u8>, usize),
    /// A closing tag.
    End,
    /// Character data, still escaped.
    Text(Vec<u8>),
    /// The bytes of a CDATA section.
    CData(Vec<u8>),
    /// A failure of the reader, with its message.
    Failed(String),
    /// A comment, declaration, processing instruction or doctype.
    Other,
}

/// A reader event as a mathematical value.
pub enum RawXmlModel {
    Start(Seq<u8>, int),
    Empty(Seq<u8>, int),
    End,
    Text(Seq<u8>),
    CData(Seq<u8>),
    Failed(Seq<char>),
    Other,
}

impl RawXml {
    pub open spec fn model(self) -> RawXmlModel {
        match self {
            RawXml::Start(content, name_len) => RawXmlModel::Start(content@, name_len as int),
            RawXml::Empty(content, name_len) => RawXmlModel::Empty(content@, name_len as int),
            RawXml::End => RawXmlModel::End,
            RawXml::Text(b) => RawXmlModel::Text(b@),
            RawXml::CData(b) => RawXmlModel::CData(b@),
            RawXml::Failed(m) => RawXmlModel::Failed(m@),
            RawXml::Other => RawXmlModel::Other,
        }
    }
}

/// The models of a list of reader events.
pub open spec fn raw_models(s: Seq<RawXml>) -> Seq<RawXmlModel> {
    s.map_values(|r: RawXml| r.model())
}

/// The events that quick-xml's reader, made by `Reader::from_str` on `xml`,
/// hands out one `read_event` after another before the end of the input
/// (after an ill-formed document error reading goes on; after any other
/// failure the reader reports only the end).
pub uninterp spec fn quick_xml_events(xml: Seq<char>) -> Seq<RawXmlModel>;

/// Reads all of `xml` with quick-xml (`Reader::from_str`, then
/// `read_event` up to the end of the input). Its result is named
/// [`quick_xml_events`]: it depends on `xml` alone.
#[verifier::external_body]
fn quick_xml_read(xml: &str) -> (r: Vec<RawXml>)
    ensures
        raw_models(r@) == quick_xml_events(xml@),
{
    let (mut reader, mut out) = (Reader::from_str(xml), Vec::new());
    loop {
        out.push(match reader.read_event() {
            Ok(Start(e)) => RawXml::Start(e.to_vec(), e.name().0.len()),
            Ok(Empty(e)) => RawXml::Empty(e.to_vec(), e.name().0.len()),
            Ok(End(_)) => RawXml::End,
            Ok(Text(e)) => RawXml::Text(e.to_vec()),
            Ok(CData(e)) => RawXml::CData(e.to_vec()),
            Ok(Eof) => return out,
            Ok(_) => RawXml::Other,
            Err(e) => RawXml::Failed(e.to_string()),
        });
    }
}

/// What quick-xml's `escape::unescape` makes of the characters of `text`
/// (as `BytesText::unescape` does after decoding): the text with its
/// entities and character references replaced, `None` where one is not
/// understood.
pub uninterp spec fn quick_xml_unescape(text: Seq<u8>) -> Option<Seq<char>>;

/// quick-xml's `escape::unescape` on character data read as UTF-8. Its
/// result is named [`quick_xml_unescape`].
#[verifier::external_body]
fn unescape_text(text: &[u8]) -> (r: Option<String>)
    ensures
        match r {
            Some(s) => quick_xml_unescape(text@) == Some(s@),
            None => quick_xml_unescape(text@) is None,
        },
{
    quick_xml::escape::unescape(&String::from_utf8_lossy(text)).ok().map(String::from)
}

/// The attributes that quick-xml reads from the bytes `content` of a tag
/// whose name takes the first `name_len` of them: each attribute's raw key
/// and value, in order, `None` for one that does not parse.
pub uninterp spec fn quick_xml_attributes(content: Seq<u8>, name_len: int) -> Seq<Option<(Seq<u8>, Seq<u8>)>>;

/// The model of one attribute as read.
pub open spec fn raw_attribute_model(a: Option<(Vec<u8>, Vec<u8>)>) -> Option<(Seq<u8>, Seq<u8>)> {
    match a {
        Some((k, v)) => Some((k@, v@)),
        None => None,
    }
}

/// quick-xml's `Attributes::new` on the tag bytes (as `BytesStart::attributes`
/// reads them), each attribute converted to its raw key and value. Its
/// result is named [`quick_xml_attributes`].
#[verifier::external_body]
fn tag_attributes(content: &[u8], name_len: usize) -> (r: Vec<Option<(Vec<u8>, Vec<u8>)>>)
    requires
        name_len <= content@.len(),
    ensures
        r@.map_values(|a| raw_attribute_model(a)) == quick_xml_attributes(content@, name_len as int),
{
    let text = String::from_utf8_lossy(content);
    quick_xml::events::attributes::Attributes::new(&text, name_len).map(|a| a.ok().map(|a| (a.key.as_ref().to_vec(), a.value.to_vec()))).collect()
}

/// The attributes of a tag as text: each one that parsed, in order, its key
/// and value decoded as UTF-8 with invalid sequences replaced.
pub open spec fn attribute_pairs(list: Seq<Option<(Seq<u8>, Seq<u8>)>>) -> Seq<(Seq<char>, Seq<char>)>
    decreases list.len(),
{
    if list.len() == 0 {
        seq![]
    } else {
        let front = attribute_pairs(list.drop_last());
        match list.last() {
            Some((k, v)) => front.push((lossy_utf8(k), lossy_utf8(v))),
            None => front,
        }
    }
}

/// The name and attributes of a tag as text, from its bytes and the length
/// of its name (a tag whose name would run past its bytes has them all as
/// its name and no attributes).
pub open spec fn tag_parts(content: Seq<u8>, name_len: int) -> (Seq<char>, Seq<(Seq<char>, Seq<char>)>) {
    if 0 <= name_len <= content.len() {
        (lossy_utf8(content.take(name_len)), attribute_pairs(quick_xml_attributes(content, name_len)))
    } else {
        (lossy_utf8(content), seq![])
    }
}

/// The event of an opening (`open`) or empty tag.
pub open spec fn tag_event(open: bool, content: Seq<u8>, name_len: int) -> XmlEventModel {
    let (name, attrs) = tag_parts(content, name_len);
    if open {
        XmlEventModel::Start { name, attrs }
    } else {
        XmlEventModel::Empty { name, attrs }
    }
}

/// The events the element tree is built from, read from the reader's
/// events from `i` on: tags with their names and attributes as text, text
/// and CDATA sections as text, closing tags; comments, declarations and the
/// like are left out, and so is text whose entities could not be replaced.
/// The events end with the first failure, or else with the end of the
/// input.
pub open spec fn events_from(raw: Seq<RawXmlModel>, i: int) -> Seq<XmlEventModel>
    decreases raw.len() - i,
{
    if i < 0 || i >= raw.len() {
        seq![XmlEventModel::Eof]
    } else {
        match raw[i] {
            RawXmlModel::Start(content, name_len) => seq![tag_event(true, content, name_len)] + events_from(raw, i + 1),
            RawXmlModel::Empty(content, name_len) => seq![tag_event(false, content, name_len)] + events_from(raw, i + 1),
            RawXmlModel::End => seq![XmlEventModel::End] + events_from(raw, i + 1),
            RawXmlModel::Text(b) => match quick_xml_unescape(b) {
                Some(t) => seq![XmlEventModel::Text(t)] + events_from(raw, i + 1),
                None => events_from(raw, i + 1),
            },
            RawXmlModel::CData(b) => seq![XmlEventModel::Text(lossy_utf8(b))] + events_from(raw, i + 1),
            RawXmlModel::Failed(m) => seq![XmlEventModel::Failed(m)],
            RawXmlModel::Other => events_from(raw, i + 1),
        }
    }
}

/// The events of all of a reader's events (see [`events_from`]).
pub open spec fn events_of_raw(raw: Seq<RawXmlModel>) -> Seq<XmlEventModel> {
    events_from(raw, 0)
}

/// The attributes of a tag (see [`attribute_pairs`]).
pub fn attribute_map(list: &Vec<Option<(Vec<u8>, Vec<u8>)>>) -> (m: Attributes)
    ensures
        m.pairs() == attribute_pairs(list@.map_values(|a| raw_attribute_model(a))),
{
    let ghost models = list@.map_values(|a| raw_attribute_model(a));
    let mut m = Attributes::new();
    let mut i: usize = 0;
    while i < list.len()
        invariant
            i <= list@.len(),
            models == list@.map_values(|a| raw_attribute_model(a)),
            m.pairs() == attribute_pairs(models.take(i as int)),
        decreases list.len() - i,
    {
        proof {
            assert(models.take(i + 1).drop_last() =~= models.take(i as int));
            assert(models.take(i + 1).last() == raw_attribute_model(list@[i as int]));
        }
        match &list[i] {
            Some((k, v)) => {
                m.insert(utf8_lossy(k.as_slice()), utf8_lossy(v.as_slice()));
            },
            None => {},
        }
        i += 1;
    }
    proof {
        assert(models.take(list@.len() as int) =~= models);
    }
    m
}

/// The name and attributes of a tag (see [`tag_parts`]).
fn tag_of(content: &Vec<u8>, name_len: usize) -> (r: (String, Attributes))
    ensures
        (r.0@, r.1.pairs()) == tag_parts(content@, name_len as int),
{
    if name_len <= content.len() {
        let name = copy_range(content.as_slice(), 0, name_len);
        assert(name@ =~= content@.take(name_len as int));
        let list = tag_attributes(content.as_slice(), name_len);
        (utf8_lossy(name.as_slice()), attribute_map(&list))
    } else {
        (utf8_lossy(content.as_slice()), Attributes::new())
    }
}

/// The event made of one reader event, where it makes one.
fn event_of(raw: &RawXml) -> (r: Option<XmlEvent>)
    ensures
        match raw.model() {
            RawXmlModel::Start(content, name_len) => r matches Some(e) && e.model() == tag_event(true, content, name_len),
            RawXmlModel::Empty(content, name_len) => r matches Some(e) && e.model() == tag_event(false, content, name_len),
            RawXmlModel::End => r matches Some(e) && e.model() == XmlEventModel::End,
            RawXmlModel::Text(b) => match quick_xml_unescape(b) {
                Some(t) => r matches Some(e) && e.model() == XmlEventModel::Text(t),
                None => r is None,
            },
            RawXmlModel::CData(b) => r matches Some(e) && e.model() == XmlEventModel::Text(lossy_utf8(b)),
            RawXmlModel::Failed(m) => r matches Some(e) && e.model() == XmlEventModel::Failed(m),
            RawXmlModel::Other => r is None,
        },
{
    match raw {
        RawXml::Start(content, name_len) => {
            let (name, attrs) = tag_of(content, *name_len);
            Some(XmlEvent::Start { name, attrs })
        },
        RawXml::Empty(content, name_len) => {
            let (name, attrs) = tag_of(content, *name_len);
            Some(XmlEvent::Empty { name, attrs })
        },
        RawXml::End => Some(XmlEvent::End),
        RawXml::Text(b) => match unescape_text(b.as_slice()) {
            Some(t) => Some(XmlEvent::Text(t)),
            None => None,
        },
        RawXml::CData(b) => Some(XmlEvent::Text(utf8_lossy(b.as_slice()))),
        RawXml::Failed(m) => Some(XmlEvent::Failed(m.clone())),
        RawXml::Other => None,
    }
}

/// The events of a reader's events (see [`events_of_raw`]).
pub fn events_of(raw: &Vec<RawXml>) -> (r: Vec<XmlEvent>)
    ensures
        event_models(r@) == events_of_raw(raw_models(raw@)),
{
    let ghost rm = raw_models(raw@);
    let mut out: Vec<XmlEvent> = Vec::new();
    let mut i: usize = 0;
    while i < raw.len()
        invariant
            i <= raw@.len(),
            rm == raw_models(raw@),
            event_models(out@) + events_from(rm, i as int) == events_from(rm, 0),
        decreases raw.len() - i,
    {
        let ghost before = out@;
        assert(rm[i as int] == raw@[i as int].model());
        match event_of(&raw[i]) {
            Some(e) => {
                let done = matches!(e, XmlEvent::Failed(_));
                out.push(e);
                proof {
                    assert(event_models(out@) =~= event_models(before).push(e.model()));
                }
                if done {
                    proof {
                        assert(events_from(rm, i as int) == seq![e.model()]);
                        assert(event_models(before) + seq![e.model()] =~= event_models(out@));
                    }
                    return out;
                }
                proof {
                    assert(events_from(rm, i as int) == seq![e.model()] + events_from(rm, i + 1));
                    assert(event_models(out@) + events_from(rm, i + 1) =~= event_models(before) + (seq![
                        e.model(),
                    ] + events_from(rm, i + 1)));
                }
            },
            None => {},
        }
        i += 1;
    }
    let ghost before = out@;
    out.push(XmlEvent::Eof);
    proof {
        assert(event_models(out@) =~= event_models(before).push(XmlEventModel::Eof));
        assert(event_models(out@) =~= event_models(before) + events_from(rm, i as int));
    }
    out
}

/// The events quick-xml reads from `xml` (see [`events_of_raw`]).
pub fn xml_events(xml: &str) -> (r: Vec<XmlEvent>)
    ensures
        event_models(r@) == events_of_raw(quick_xml_events(xml@)),
{
    events_of(&quick_xml_read(xml))
}

/// The element tree of an SVG document (see [`tree_from`]), built from
/// the events quick-xml reads from `xml` (see [`events_of_raw`]).
pub fn build_svg_tree(xml: &str) -> (r: Result<SvgElement, Error>)
    ensures
        match tree_from(events_of_raw(quick_xml_events(xml@)), 0, seq![]) {
            Ok(m) => r matches Ok(e) && e.model() == m,
            Err(msg) => r matches Err(e) && e matches Error::Import(x) && x@ == msg,
        },
{
    build_tree(xml_events(xml))
}

} // verus!
