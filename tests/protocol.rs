use render_protocol::framing::{
    accept_length, accept_payload, decode_length, encode_length, frame, ReadError, ReadOutcome,
    ReadPhase, READ_TIMEOUT_SECS,
};
use render_protocol::message::{expect_rendering_request, expect_template_data};
use render_protocol::projects::{
    Identifier, IdentifierType, License, PreparedLicense, PreparedMetadata, PreparedProject,
    ProjectSettingsV2, ProjectSettingsV3, ProjectSettingsV4,
};
use render_protocol::tree::{tree_from_scan, write_plan, ScannedEntry, ScannedKind, WriteStep};
use render_protocol::{
    CommunicationError, ExportFormats, FileOrFolder, Message, NamedFile, NamedFolder,
    RenderingError, RenderingRequest, RenderingResult, RenderingStatus, TemplateContents,
    TemplateDataRequest, TemplateDataResult, Uuid,
};

fn file(name: &str, content: &[u8]) -> FileOrFolder {
    FileOrFolder::File(NamedFile { name: name.to_string(), content: content.to_vec() })
}

fn folder(name: &str, contents: Vec<FileOrFolder>) -> FileOrFolder {
    FileOrFolder::Folder(NamedFolder { name: name.to_string(), contents })
}

fn path(parts: &[&str]) -> Vec<String> {
    parts.iter().map(|p| p.to_string()).collect()
}

fn metadata(title: &str) -> PreparedMetadata {
    PreparedMetadata {
        title: title.to_string(),
        subtitle: None,
        authors: vec![],
        editors: vec![],
        web_url: None,
        identifiers: None,
        published: None,
        languages: None,
        number_of_pages: None,
        short_abstract: None,
        long_abstract: None,
        keywords: None,
        ddc: None,
        license: None,
        series: None,
        volume: None,
        edition: None,
        publisher: None,
    }
}

fn template_data(id: u128, version: u128) -> TemplateDataResult {
    TemplateDataResult {
        template_id: Uuid::from_u128(id),
        template_version_id: Uuid::from_u128(version),
        contents: TemplateContents { contents: vec![file("a.css", b"x")] },
        export_formats: ExportFormats::new(),
    }
}

#[test]
fn settings_v2_upgrade_to_v4() {
    let v2 = ProjectSettingsV2 { toc_enabled: true, csl_style: Some("apa".to_string()) };
    let v4 = ProjectSettingsV4::from(v2);
    assert_eq!(
        v4,
        ProjectSettingsV4 {
            toc_enabled: true,
            csl_style: Some("apa".to_string()),
            csl_language_code: None,
            metadata_page_additional_html: None,
            cover_image_path: None,
            backcover_image_path: None,
        }
    );
}

#[test]
fn settings_v3_upgrade_to_v4() {
    let v3 = ProjectSettingsV3 {
        toc_enabled: false,
        csl_style: None,
        csl_language_code: Some("de-DE".to_string()),
    };
    let v4 = ProjectSettingsV4::from(v3);
    assert!(!v4.toc_enabled);
    assert_eq!(v4.csl_style, None);
    assert_eq!(v4.csl_language_code, Some("de-DE".to_string()));
    assert_eq!(v4.metadata_page_additional_html, None);
    assert_eq!(v4.cover_image_path, None);
    assert_eq!(v4.backcover_image_path, None);
}

#[test]
fn settings_v2_upgrade_to_v3() {
    let v2 = ProjectSettingsV2 { toc_enabled: true, csl_style: None };
    let v3 = ProjectSettingsV3::from(v2);
    assert_eq!(v3, ProjectSettingsV3 { toc_enabled: true, csl_style: None, csl_language_code: None });
}

#[test]
fn license_standard_variants_set_one_flag() {
    let all = vec![
        License::CC0,
        License::CC_BY_4,
        License::CC_BY_SA_4,
        License::CC_BY_ND_4,
        License::CC_BY_NC_4,
        License::CC_BY_NC_SA_4,
        License::CC_BY_NC_ND_4,
    ];
    for (i, l) in all.into_iter().enumerate() {
        let p = PreparedLicense::from(l);
        let flags = p.flags();
        for (j, f) in flags.iter().enumerate() {
            assert_eq!(*f, i == j);
        }
        assert_eq!(p.other(), "");
    }
}

#[test]
fn license_other_carries_text() {
    let p = PreparedLicense::from(License::Other("x".to_string()));
    assert_eq!(p.flags(), [false; 7]);
    assert_eq!(p.other(), "x");
}

#[test]
fn identifier_default_names() {
    let id = Identifier::new(IdentifierType::ISBN, "978-3-16-148410-0".to_string(), None);
    assert_eq!(id.name, "ISBN");
    assert_eq!(id.value, "978-3-16-148410-0");
    assert_eq!(id.identifier_type, IdentifierType::ISBN);
    assert!(id.id.is_some());
    let cases = vec![
        (IdentifierType::DOI, "DOI"),
        (IdentifierType::ISSN, "ISSN"),
        (IdentifierType::URL, "URL"),
        (IdentifierType::URN, "URN"),
        (IdentifierType::ORCID, "ORCID"),
        (IdentifierType::ROR, "ROR"),
        (IdentifierType::GND, "GND"),
        (IdentifierType::Other("Handle".to_string()), "Handle"),
    ];
    for (t, name) in cases {
        assert_eq!(Identifier::new(t, "v".to_string(), None).name, name);
    }
}

#[test]
fn identifier_explicit_name_overrides() {
    let types = vec![
        IdentifierType::DOI,
        IdentifierType::ISBN,
        IdentifierType::GND,
        IdentifierType::Other("Handle".to_string()),
    ];
    for t in types {
        let id = Identifier::new(t, "v".to_string(), Some("Print ISBN".to_string()));
        assert_eq!(id.name, "Print ISBN");
    }
}

#[test]
fn identifiers_get_fresh_ids() {
    let a = Identifier::new(IdentifierType::DOI, "v".to_string(), None);
    let b = Identifier::new(IdentifierType::DOI, "v".to_string(), None);
    assert_ne!(a.id, b.id);
    let v = a.id.unwrap().as_u128();
    assert_eq!((v >> 76) & 0xF, 4);
    assert_eq!((v >> 62) & 0x3, 2);
}

#[test]
fn status_forward_path_to_saved() {
    let path = vec![
        RenderingStatus::default(),
        RenderingStatus::PreparingOnLocal,
        RenderingStatus::PreparedOnLocal,
        RenderingStatus::SendToRenderingServer,
        RenderingStatus::RequestingTemplate,
        RenderingStatus::TransmittingTemplate,
        RenderingStatus::QueuedOnRendering,
        RenderingStatus::Running,
        RenderingStatus::Finished(RenderingResult { files: vec![] }),
        RenderingStatus::SavedOnLocal("out.zip".to_string(), "out".to_string()),
    ];
    assert!(matches!(path[0], RenderingStatus::QueuedOnLocal));
    for w in path.windows(2) {
        assert!(w[0].can_transition_to(&w[1]));
    }
    assert!(path[9].is_terminal());
    assert!(!path[9].can_transition_to(&RenderingStatus::Failed(RenderingError::NoResultFiles)));
}

#[test]
fn status_cached_template_skips_transfer() {
    assert!(RenderingStatus::SendToRenderingServer.can_transition_to(&RenderingStatus::QueuedOnRendering));
    assert!(!RenderingStatus::QueuedOnLocal.can_transition_to(&RenderingStatus::PreparedOnLocal));
    assert!(!RenderingStatus::Running.can_transition_to(&RenderingStatus::QueuedOnLocal));
}

#[test]
fn status_failed_is_absorbing() {
    let failed = RenderingStatus::Failed(RenderingError::TemplateNotFound);
    assert!(RenderingStatus::Running.can_transition_to(&failed));
    assert!(failed.is_terminal());
    assert!(!failed.can_transition_to(&RenderingStatus::QueuedOnLocal));
    assert!(!failed.can_transition_to(&RenderingStatus::Failed(RenderingError::NoResultFiles)));
    assert_eq!(failed.stage(), -1);
}

#[test]
fn rendering_error_messages() {
    assert_eq!(RenderingError::ProjectNotFound.message(), "Couldn't find project to render.");
    assert_eq!(
        RenderingError::MissingExpectedFileToKeep("book.pdf".to_string(), "log".to_string()).message(),
        "Couldn't find the expected file book.pdf after rendering: log"
    );
    assert_eq!(
        RenderingError::PandocConversionFailed("oops".to_string()).message(),
        "Couldn't convert with pandoc: oops"
    );
    assert_eq!(RenderingError::Other("x".to_string()).message(), "Error occured: x");
    assert_eq!(
        RenderingError::NoResultFiles.message(),
        "No file was transmitted. Check your templates export steps."
    );
}

#[test]
fn length_prefix_is_big_endian() {
    assert_eq!(encode_length(258), [0, 0, 0, 0, 0, 0, 1, 2]);
    assert_eq!(decode_length(&[1, 0, 0, 0, 0, 0, 0, 0]), 1u64 << 56);
    assert_eq!(decode_length(&encode_length(u64::MAX)), u64::MAX);
    assert_eq!(decode_length(&encode_length(0)), 0);
}

#[test]
fn frame_reads_back() {
    let payload = vec![7u8, 8, 9];
    let f = frame(&payload);
    assert_eq!(f, vec![0, 0, 0, 0, 0, 0, 0, 3, 7, 8, 9]);
    let len = accept_length(ReadOutcome::Received(f[..8].to_vec())).unwrap();
    assert_eq!(len, 3);
    let back = accept_payload(len, ReadOutcome::Received(f[8..].to_vec())).unwrap();
    assert_eq!(back, payload);
    assert_eq!(frame(&vec![]), vec![0u8; 8]);
}

#[test]
fn short_payload_is_transport_fault() {
    let r = accept_payload(5, ReadOutcome::Received(vec![1, 2]));
    assert_eq!(r, Err(ReadError::ConnectionFailed(ReadPhase::Payload)));
    let r = accept_payload(5, ReadOutcome::ConnectionFailed);
    assert_eq!(r, Err(ReadError::ConnectionFailed(ReadPhase::Payload)));
    let r = accept_length(ReadOutcome::Received(vec![0, 0, 1]));
    assert_eq!(r, Err(ReadError::ConnectionFailed(ReadPhase::Length)));
    assert_ne!(r, Err(ReadError::Decode));
}

#[test]
fn timeouts_are_told_apart() {
    assert_eq!(READ_TIMEOUT_SECS, 600);
    let on_length = accept_length(ReadOutcome::TimedOut);
    let on_payload = accept_payload(4, ReadOutcome::TimedOut);
    assert_eq!(on_length, Err(ReadError::TimedOut(ReadPhase::Length)));
    assert_eq!(on_payload, Err(ReadError::TimedOut(ReadPhase::Payload)));
}

#[test]
fn export_formats_lookup() {
    let mut formats = ExportFormats::new();
    assert_eq!(formats.len(), 0);
    formats.insert("pdf".to_string(), vec![1]);
    formats.insert("html".to_string(), vec![2]);
    formats.insert("pdf".to_string(), vec![3]);
    assert_eq!(formats.len(), 2);
    assert_eq!(formats.get("pdf"), Some(&vec![3]));
    assert_eq!(formats.get("html"), Some(&vec![2]));
    assert_eq!(formats.get("epub"), None);
}

#[test]
fn template_data_must_match_request() {
    let requested = TemplateDataRequest {
        template_id: Uuid::from_u128(1),
        template_version_id: Uuid::from_u128(2),
    };
    let ok = expect_template_data(Message::TemplateDataResult(template_data(1, 2)), &requested);
    assert!(ok.is_ok());
    let wrong = expect_template_data(Message::TemplateDataResult(template_data(1, 3)), &requested);
    assert!(matches!(wrong, Err(CommunicationError::WrongTemplateDataSend)));
    let unexpected = expect_template_data(
        Message::RenderingRequestStatus(RenderingStatus::Running),
        &requested,
    );
    assert!(matches!(unexpected, Err(CommunicationError::UnexpectedMessageType)));
}

#[test]
fn rendering_request_is_expected_first() {
    let request = RenderingRequest {
        request_id: Uuid::new_v4(),
        prepared_project: PreparedProject { metadata: metadata("Book"), settings: None, sections: vec![] },
        project_uploaded_files: vec![],
        template_id: Uuid::from_u128(10),
        template_version_id: Uuid::from_u128(11),
        export_formats: vec!["pdf".to_string()],
    };
    let asked = TemplateDataRequest::for_rendering(&request);
    assert_eq!(asked.template_id.as_u128(), 10);
    assert_eq!(asked.template_version_id.as_u128(), 11);
    let got = expect_rendering_request(Message::RenderingRequest(request)).ok().unwrap();
    assert_eq!(got.prepared_project.metadata.title, "Book");
    let bad = expect_rendering_request(Message::UnexpectedError("x".to_string()));
    assert!(matches!(bad, Err(CommunicationError::UnexpectedMessageType)));
}

#[test]
fn write_plan_creates_folders_before_contents() {
    let tree = vec![
        file("empty.txt", b""),
        folder("img", vec![file("a.png", &[0, 255]), folder("sub", vec![])]),
        file("z.css", b"body{}"),
    ];
    let plan = write_plan(tree);
    assert_eq!(
        plan,
        vec![
            WriteStep::WriteFile(path(&["empty.txt"]), vec![]),
            WriteStep::CreateDir(path(&["img"])),
            WriteStep::WriteFile(path(&["img", "a.png"]), vec![0, 255]),
            WriteStep::CreateDir(path(&["img", "sub"])),
            WriteStep::WriteFile(path(&["z.css"]), b"body{}".to_vec()),
        ]
    );
    let contents = TemplateContents { contents: vec![folder("t", vec![])] };
    assert_eq!(contents.into_write_plan(), vec![WriteStep::CreateDir(path(&["t"]))]);
}

#[test]
fn scan_skips_unreadable_names() {
    let scan = vec![
        ScannedEntry { name: Some("b.txt".to_string()), kind: ScannedKind::File(vec![1, 2]) },
        ScannedEntry { name: None, kind: ScannedKind::File(vec![9]) },
        ScannedEntry {
            name: Some("d".to_string()),
            kind: ScannedKind::Dir(vec![
                ScannedEntry { name: None, kind: ScannedKind::Dir(vec![]) },
                ScannedEntry { name: Some("e".to_string()), kind: ScannedKind::File(vec![]) },
            ]),
        },
    ];
    let tree = tree_from_scan(scan);
    assert_eq!(tree, vec![file("b.txt", &[1, 2]), folder("d", vec![file("e", b"")])]);
}

#[test]
fn uuid_keeps_its_value() {
    let u = Uuid::from_u128(0x1234);
    assert_eq!(u.as_u128(), 0x1234);
    assert_eq!(u.value, 0x1234);
}
