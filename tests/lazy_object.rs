use dicom_core::{
    DataDictionary, DicomElementMarker, DicomObject, DicomValue, DictionaryEntry, ElementSource,
    Error, LazyDataElement, LazyDicomObject, ReadRequest, Result, Tag, ValueExtent,
    UNDEFINED_LENGTH, VR,
};

/// A source that records every request and answers from a fixed rule.
struct RecordingSource {
    requests: Vec<ReadRequest>,
    fail: bool,
}

impl RecordingSource {
    fn new() -> RecordingSource {
        RecordingSource { requests: Vec::new(), fail: false }
    }

    fn failing() -> RecordingSource {
        RecordingSource { requests: Vec::new(), fail: true }
    }
}

impl ElementSource for RecordingSource {
    fn read_value(&mut self, request: &ReadRequest) -> Result<DicomValue> {
        self.requests.push(*request);
        if self.fail {
            return Err(Error::Io("truncated source".to_string()));
        }
        match (request.extent, request.text) {
            (ValueExtent::Bytes(n), true) => Ok(DicomValue::Text("X".repeat(n as usize))),
            (ValueExtent::Bytes(n), false) => Ok(DicomValue::Bytes(vec![0u8; n as usize])),
            (ValueExtent::Delimited, _) => Ok(DicomValue::Empty),
        }
    }
}

fn marker(group: u16, element: u16, vr: VR, len: u32, pos: u64) -> DicomElementMarker {
    DicomElementMarker::new(Tag(group, element), vr, len, pos)
}

fn dictionary() -> DataDictionary {
    DataDictionary::new(vec![
        DictionaryEntry { tag: Tag(0x0008, 0x0020), alias: "StudyDate".to_string(), vr: VR::DA },
        DictionaryEntry { tag: Tag(0x0010, 0x0010), alias: "PatientName".to_string(), vr: VR::PN },
        DictionaryEntry { tag: Tag(0x0008, 0x0030), alias: "StudyTime".to_string(), vr: VR::TM },
    ])
}

fn scenario_a_headers() -> Vec<Result<DicomElementMarker>> {
    vec![
        Ok(marker(0x0008, 0x0020, VR::DA, 8, 0)),
        Ok(marker(0x0010, 0x0010, VR::PN, 4, 12)),
    ]
}

#[test]
fn scenario_two_headers() {
    let dict = dictionary();
    let mut obj = LazyDicomObject::from_iter(scenario_a_headers(), RecordingSource::new(), &dict)
        .unwrap();
    assert_eq!(obj.len(), 2);
    assert!(obj.contains(Tag(0x0008, 0x0020)));
    assert!(obj.contains(Tag(0x0010, 0x0010)));
    assert!(obj.get(Tag(0x0010, 0x0010)).unwrap().value().is_none());

    let v = obj.element(Tag(0x0010, 0x0010)).unwrap();
    assert_eq!(v, DicomValue::Text("XXXX".to_string()));
    let reqs = &obj.source().requests;
    assert_eq!(reqs.len(), 1);
    assert_eq!(reqs[0].pos, 12);
    assert_eq!(reqs[0].extent, ValueExtent::Bytes(4));
    assert!(reqs[0].text);
    assert_eq!(reqs[0].vr, VR::PN);
    assert_eq!(
        obj.get(Tag(0x0010, 0x0010)).unwrap().value(),
        &Some(DicomValue::Text("XXXX".to_string()))
    );
    assert!(obj.get(Tag(0x0008, 0x0020)).unwrap().value().is_none());

    assert_eq!(obj.element(Tag(0x0008, 0x0030)), Err(Error::NoSuchDataElement));
}

#[test]
fn scenario_duplicate_tag_keeps_later_header() {
    let dict = dictionary();
    let headers = vec![
        Ok(marker(0x0008, 0x0020, VR::DA, 8, 0)),
        Ok(marker(0x0008, 0x0020, VR::DA, 10, 40)),
    ];
    let mut obj = LazyDicomObject::from_iter(headers, RecordingSource::new(), &dict).unwrap();
    assert_eq!(obj.len(), 1);
    let e = obj.get(Tag(0x0008, 0x0020)).unwrap();
    assert_eq!(e.len(), 10);
    assert_eq!(e.marker().pos, 40);
    obj.element(Tag(0x0008, 0x0020)).unwrap();
    assert_eq!(obj.source().requests[0].pos, 40);
    assert_eq!(obj.source().requests[0].extent, ValueExtent::Bytes(10));
}

#[test]
fn scenario_undefined_length_sequence_is_delimited() {
    let dict = dictionary();
    let headers = vec![Ok(marker(0x0008, 0x1140, VR::SQ, UNDEFINED_LENGTH, 100))];
    let mut obj = LazyDicomObject::from_iter(headers, RecordingSource::new(), &dict).unwrap();
    assert_eq!(obj.get(Tag(0x0008, 0x1140)).unwrap().len(), 0xFFFF_FFFF);
    let v = obj.element(Tag(0x0008, 0x1140)).unwrap();
    assert_eq!(v, DicomValue::Empty);
    let req = obj.source().requests[0];
    assert_eq!(req.extent, ValueExtent::Delimited);
    assert_ne!(req.extent, ValueExtent::Bytes(0xFFFF_FFFF));
    assert_eq!(req.pos, 100);
    assert!(!req.text);
}

#[test]
fn assembled_tags_are_the_distinct_input_tags() {
    let dict = dictionary();
    let headers = vec![
        Ok(marker(0x0010, 0x0010, VR::PN, 4, 0)),
        Ok(marker(0x0008, 0x0020, VR::DA, 8, 10)),
        Ok(marker(0x0010, 0x0010, VR::PN, 6, 30)),
        Ok(marker(0x0020, 0x000D, VR::UI, 2, 50)),
    ];
    let obj = LazyDicomObject::from_iter(headers, RecordingSource::new(), &dict).unwrap();
    assert_eq!(obj.len(), 3);
    assert!(obj.contains(Tag(0x0010, 0x0010)));
    assert!(obj.contains(Tag(0x0008, 0x0020)));
    assert!(obj.contains(Tag(0x0020, 0x000D)));
    assert!(!obj.contains(Tag(0x0020, 0x000E)));
    assert_eq!(obj.get(Tag(0x0010, 0x0010)).unwrap().marker().pos, 30);
    assert!(obj.source().requests.is_empty());
}

#[test]
fn empty_stream_gives_empty_object() {
    let dict = dictionary();
    let mut obj = LazyDicomObject::from_iter(Vec::new(), RecordingSource::new(), &dict).unwrap();
    assert_eq!(obj.len(), 0);
    assert_eq!(obj.element(Tag(0x0008, 0x0020)), Err(Error::NoSuchDataElement));
}

#[test]
fn second_element_call_reads_nothing() {
    let dict = dictionary();
    let mut obj = LazyDicomObject::from_iter(scenario_a_headers(), RecordingSource::new(), &dict)
        .unwrap();
    let first = obj.element(Tag(0x0008, 0x0020)).unwrap();
    let second = obj.element(Tag(0x0008, 0x0020)).unwrap();
    assert_eq!(first, second);
    assert_eq!(first, DicomValue::Text("XXXXXXXX".to_string()));
    assert_eq!(obj.source().requests.len(), 1);
}

#[test]
fn by_name_matches_by_tag() {
    let dict = dictionary();
    let mut by_name =
        LazyDicomObject::from_iter(scenario_a_headers(), RecordingSource::new(), &dict).unwrap();
    let mut by_tag =
        LazyDicomObject::from_iter(scenario_a_headers(), RecordingSource::new(), &dict).unwrap();
    let a = by_name.element_by_name("PatientName").unwrap();
    let b = by_tag.element(Tag(0x0010, 0x0010)).unwrap();
    assert_eq!(a, b);
    assert_eq!(by_name.source().requests, by_tag.source().requests);
}

#[test]
fn unknown_tag_and_name_change_nothing() {
    let dict = dictionary();
    let mut obj = LazyDicomObject::from_iter(scenario_a_headers(), RecordingSource::new(), &dict)
        .unwrap();
    assert_eq!(obj.element(Tag(0x7777, 0x0001)), Err(Error::NoSuchDataElement));
    assert_eq!(obj.element_by_name("NoSuchThing"), Err(Error::NoSuchAttributeName));
    // a known name whose field is absent
    assert_eq!(obj.element_by_name("StudyTime"), Err(Error::NoSuchDataElement));
    assert!(obj.source().requests.is_empty());
    assert!(obj.get(Tag(0x0008, 0x0020)).unwrap().value().is_none());
    assert!(obj.get(Tag(0x0010, 0x0010)).unwrap().value().is_none());
    assert_eq!(obj.len(), 2);
}

#[test]
fn first_header_error_aborts_assembly() {
    let dict = dictionary();
    let headers = vec![
        Ok(marker(0x0008, 0x0020, VR::DA, 8, 0)),
        Err(Error::Decode("bad length".to_string())),
        Ok(marker(0x0010, 0x0010, VR::PN, 4, 12)),
        Err(Error::Io("second".to_string())),
    ];
    let r = LazyDicomObject::from_iter(headers, RecordingSource::new(), &dict);
    assert_eq!(r.err(), Some(Error::Decode("bad length".to_string())));
}

#[test]
fn source_error_is_returned_and_not_cached() {
    let dict = dictionary();
    let mut obj =
        LazyDicomObject::from_iter(scenario_a_headers(), RecordingSource::failing(), &dict)
            .unwrap();
    let r = obj.element(Tag(0x0008, 0x0020));
    assert_eq!(r, Err(Error::Io("truncated source".to_string())));
    assert!(obj.get(Tag(0x0008, 0x0020)).unwrap().value().is_none());
    let r = obj.element(Tag(0x0008, 0x0020));
    assert!(r.is_err());
    assert_eq!(obj.source().requests.len(), 2);
}

#[test]
fn cache_outcome_stores_values_only() {
    let dict = dictionary();
    let mut obj = LazyDicomObject::from_iter(scenario_a_headers(), RecordingSource::new(), &dict)
        .unwrap();
    let r = obj.cache_outcome(Tag(0x0008, 0x0020), Err(Error::Io("gone".to_string())));
    assert_eq!(r, Err(Error::Io("gone".to_string())));
    assert!(obj.get(Tag(0x0008, 0x0020)).unwrap().value().is_none());
    let r = obj.cache_outcome(Tag(0x0008, 0x0020), Ok(DicomValue::Unsigned(vec![1, 2])));
    assert_eq!(r, Ok(DicomValue::Unsigned(vec![1, 2])));
    assert_eq!(obj.element(Tag(0x0008, 0x0020)), Ok(DicomValue::Unsigned(vec![1, 2])));
    assert!(obj.source().requests.is_empty());
}

#[test]
fn pixel_data_fails_explicitly() {
    let dict = dictionary();
    let mut obj = LazyDicomObject::from_iter(scenario_a_headers(), RecordingSource::new(), &dict)
        .unwrap();
    assert_eq!(obj.pixel_data(), Err(Error::NoSuchDataElement));
    let headers = vec![Ok(marker(0x7FE0, 0x0010, VR::OB, UNDEFINED_LENGTH, 200))];
    let mut obj = LazyDicomObject::from_iter(headers, RecordingSource::new(), &dict).unwrap();
    assert_eq!(DicomObject::pixel_data(&mut obj), Err(Error::UnsupportedPixelData));
    assert!(obj.source().requests.is_empty());
}

#[test]
fn trait_methods_delegate() {
    let dict = dictionary();
    let mut obj = LazyDicomObject::from_iter(scenario_a_headers(), RecordingSource::new(), &dict)
        .unwrap();
    let v = DicomObject::element_by_name(&mut obj, "StudyDate").unwrap();
    assert_eq!(v, DicomValue::Text("XXXXXXXX".to_string()));
    let w = DicomObject::element(&mut obj, Tag(0x0008, 0x0020)).unwrap();
    assert_eq!(v, w);
    assert_eq!(obj.source().requests.len(), 1);
}

#[test]
fn tag_keys_and_order() {
    assert_eq!(Tag(0x0008, 0x0020).key(), 0x0008_0020);
    assert_eq!(Tag(0xFFFF, 0xFFFF).key(), 0xFFFF_FFFF);
    assert_eq!(Tag(0, 0).key(), 0);
    assert!(Tag(0x0008, 0xFFFF) < Tag(0x0010, 0x0000));
    assert_eq!(Tag(0x0010, 0x0020).group(), 0x0010);
    assert_eq!(Tag(0x0010, 0x0020).element(), 0x0020);
}

#[test]
fn text_representations() {
    assert!(VR::PN.is_text());
    assert!(VR::DA.is_text());
    assert!(VR::UI.is_text());
    assert!(!VR::US.is_text());
    assert!(!VR::SQ.is_text());
    assert!(!VR::OB.is_text());
}

#[test]
fn read_request_of_marker() {
    let m = marker(0x0028, 0x0010, VR::US, 2, 77);
    assert!(!m.has_undefined_length());
    assert_eq!(
        m.read_request(),
        ReadRequest {
            tag: Tag(0x0028, 0x0010),
            vr: VR::US,
            pos: 77,
            extent: ValueExtent::Bytes(2),
            text: false
        }
    );
    let s = marker(0x0008, 0x1140, VR::SQ, UNDEFINED_LENGTH, 5);
    assert!(s.has_undefined_length());
    assert_eq!(s.read_request().extent, ValueExtent::Delimited);
}

#[test]
fn dictionary_lookups() {
    let dict = dictionary();
    assert_eq!(dict.len(), 3);
    assert_eq!(dict.get_by_name("StudyTime").unwrap().tag, Tag(0x0008, 0x0030));
    assert!(dict.get_by_name("studytime").is_none());
    assert!(dict.get_by_name("").is_none());
    assert_eq!(dict.get_by_tag(Tag(0x0010, 0x0010)).unwrap().alias, "PatientName");
    assert!(dict.get_by_tag(Tag(0x0010, 0x0011)).is_none());
    let dup = DataDictionary::new(vec![
        DictionaryEntry { tag: Tag(1, 1), alias: "A".to_string(), vr: VR::CS },
        DictionaryEntry { tag: Tag(2, 2), alias: "A".to_string(), vr: VR::CS },
    ]);
    assert_eq!(dup.get_by_name("A").unwrap().tag, Tag(1, 1));
}

#[test]
fn lazy_element_accessors() {
    let mut e = LazyDataElement::new(marker(0x0010, 0x0010, VR::PN, 4, 12));
    assert_eq!(e.tag(), Tag(0x0010, 0x0010));
    assert_eq!(e.vr(), VR::PN);
    assert_eq!(e.len(), 4);
    assert!(e.value().is_none());
    *e.value_mut() = Some(DicomValue::Signed(vec![-1]));
    assert_eq!(e.value(), &Some(DicomValue::Signed(vec![-1])));
    e.set_value(DicomValue::Tags(vec![Tag(1, 2)]));
    assert_eq!(e.value(), &Some(DicomValue::Tags(vec![Tag(1, 2)])));
}

#[test]
fn values_and_errors_clone_exactly() {
    let v = DicomValue::Bytes(vec![1, 2, 3]);
    assert_eq!(v.clone(), v);
    let e = Error::Decode("x".to_string());
    assert_eq!(e.clone(), e);
}
