use storelib_rs::fe3::{
    cookie_of, file_locations_of, file_url_request_body, first_urls, html_decode, parse_cookie,
    parse_file_locations, process_update_ids, soap_body, update_ids_of, MSA_TOKEN,
};
use storelib_rs::xml::parse_document;
use storelib_rs::fe3_model::ResolvedFileLocation;
use storelib_rs::error::StoreError;

#[test]
fn html_decode_all_entities() {
    assert_eq!(html_decode("a &amp; b"), "a & b");
    assert_eq!(html_decode("&lt;tag&gt;"), "<tag>");
    assert_eq!(html_decode("say &quot;hello&quot;"), "say \"hello\"");
    assert_eq!(html_decode("it&apos;s"), "it's");
}

#[test]
fn html_decode_no_entities() {
    assert_eq!(html_decode("plain text"), "plain text");
}

#[test]
fn html_decode_chained_entities() {
    assert_eq!(html_decode("&amp;lt;"), "<");
}

#[test]
fn html_decode_leaves_unknown_entities() {
    assert_eq!(html_decode("&nbsp;&amp"), "&nbsp;&amp");
    assert_eq!(html_decode("&#60;"), "&#60;");
}

#[test]
fn process_update_ids_empty_xml() {
    let xml = r#"<?xml version="1.0"?><root></root>"#;
    let (ids, revs) = process_update_ids(xml).unwrap();
    assert!(ids.is_empty());
    assert!(revs.is_empty());
}

#[test]
fn process_update_ids_parses_secured_fragment() {
    let xml = r#"<?xml version="1.0"?>
<s:Envelope xmlns:s="http://schemas.xmlsoap.org/soap/envelope/">
  <s:Body>
    <SyncUpdatesResult>
      <NewUpdates>
        <UpdateInfo>
          <ID>1</ID>
          <Xml>
            <UpdateIdentity UpdateID="abc-123" RevisionNumber="200"/>
            <Properties>
              <SecuredFragment/>
            </Properties>
          </Xml>
        </UpdateInfo>
      </NewUpdates>
    </SyncUpdatesResult>
  </s:Body>
</s:Envelope>"#;
    let (ids, revs) = process_update_ids(xml).unwrap();
    assert_eq!(ids, vec!["abc-123"]);
    assert_eq!(revs, vec!["200"]);
}

#[test]
fn process_update_ids_skips_nodes_without_secured_fragment() {
    let xml = r#"<?xml version="1.0"?>
<s:Envelope xmlns:s="http://schemas.xmlsoap.org/soap/envelope/">
  <s:Body>
    <SyncUpdatesResult>
      <NewUpdates>
        <UpdateInfo>
          <ID>1</ID>
          <Xml>
            <UpdateIdentity UpdateID="no-fragment" RevisionNumber="1"/>
            <Properties/>
          </Xml>
        </UpdateInfo>
      </NewUpdates>
    </SyncUpdatesResult>
  </s:Body>
</s:Envelope>"#;
    let (ids, _) = process_update_ids(xml).unwrap();
    assert!(ids.is_empty());
}

#[test]
fn process_update_ids_multiple() {
    let xml = r#"<?xml version="1.0"?>
<root>
  <Update>
    <UpdateIdentity UpdateID="id-1" RevisionNumber="10"/>
    <Properties>
      <SecuredFragment/>
    </Properties>
  </Update>
  <Update>
    <UpdateIdentity UpdateID="id-2" RevisionNumber="20"/>
    <Properties>
      <SecuredFragment/>
    </Properties>
  </Update>
</root>"#;
    let (ids, revs) = process_update_ids(xml).unwrap();
    assert_eq!(ids.len(), 2);
    assert_eq!(ids[0], "id-1");
    assert_eq!(revs[0], "10");
    assert_eq!(ids[1], "id-2");
    assert_eq!(revs[1], "20");
}

#[test]
fn process_update_ids_invalid_xml_returns_error() {
    let result = process_update_ids("not xml at all <<<");
    assert!(result.is_err());
}

#[test]
fn process_update_ids_needs_both_attributes() {
    let xml = r#"<root>
  <Update><UpdateIdentity UpdateID="only-id"/><Properties><SecuredFragment/></Properties></Update>
  <Update><UpdateIdentity UpdateID="ok" RevisionNumber="3"/><Properties><SecuredFragment/></Properties></Update>
</root>"#;
    let (ids, revs) = process_update_ids(xml).unwrap();
    assert_eq!(ids, vec!["ok"]);
    assert_eq!(revs, vec!["3"]);
}

#[test]
fn process_update_ids_error_is_xml_kind() {
    match process_update_ids("<a><b></a>") {
        Err(StoreError::Xml(m)) => assert!(!m.is_empty()),
        other => panic!("expected an XML error, got {other:?}"),
    }
}

#[test]
fn cookie_is_first_encrypted_data_text() {
    let xml = r#"<Envelope><Body><GetCookieResponse><GetCookieResult>
<Expiration>2030</Expiration><EncryptedData>COOKIE-1</EncryptedData></GetCookieResult>
<EncryptedData>COOKIE-2</EncryptedData></GetCookieResponse></Body></Envelope>"#;
    assert_eq!(parse_cookie(xml).unwrap(), "COOKIE-1");
}

#[test]
fn cookie_missing_is_an_xml_error() {
    match parse_cookie("<Envelope><Body/></Envelope>") {
        Err(StoreError::Xml(m)) => {
            assert_eq!(m, "EncryptedData node not found in cookie response")
        }
        other => panic!("expected an XML error, got {other:?}"),
    }
    match parse_cookie("<Envelope><EncryptedData/></Envelope>") {
        Err(StoreError::Xml(m)) => {
            assert_eq!(m, "EncryptedData node not found in cookie response")
        }
        other => panic!("expected an XML error, got {other:?}"),
    }
    assert!(matches!(parse_cookie("<<<"), Err(StoreError::Xml(_))));
}

#[test]
fn file_locations_keep_document_order_and_trim_digests() {
    let xml = r#"<Envelope><Body><GetExtendedUpdateInfo2Response><GetExtendedUpdateInfo2Result>
<FileLocations>
  <FileLocation><FileDigest>  AAA=  </FileDigest><Url>http://a/primary</Url></FileLocation>
  <FileLocation><FileDigest>BBB=</FileDigest></FileLocation>
  <FileLocation><Url>http://b/blockmap</Url></FileLocation>
</FileLocations></GetExtendedUpdateInfo2Result></GetExtendedUpdateInfo2Response></Body></Envelope>"#;
    let locs = parse_file_locations(xml).unwrap();
    assert_eq!(locs.len(), 2);
    assert_eq!(locs[0].url, "http://a/primary");
    assert_eq!(locs[0].digest.as_deref(), Some("AAA="));
    assert_eq!(locs[1].url, "http://b/blockmap");
    assert_eq!(locs[1].digest, None);
}

#[test]
fn file_locations_invalid_xml_is_error() {
    assert!(matches!(parse_file_locations("<x>"), Err(StoreError::Xml(_))));
}

#[test]
fn first_urls_are_keyed_parallel_to_updates() {
    let per_update = vec![
        vec![
            ResolvedFileLocation { url: "u1".into(), digest: None },
            ResolvedFileLocation { url: "u1b".into(), digest: None },
        ],
        vec![],
        vec![ResolvedFileLocation { url: "u3".into(), digest: Some("d".into()) }],
    ];
    let urls = first_urls(&per_update);
    assert_eq!(
        urls,
        vec![("u1".to_string(), None), (String::new(), None), ("u3".to_string(), None)]
    );
    assert_eq!(urls.len(), per_update.len());
}

#[test]
fn soap_body_fills_placeholders_in_order() {
    let body = soap_body("<a>{0}</a><b>{1}</b><c>{2}</c>", "cookie", "cat", Some("tok"));
    assert_eq!(body, "<a>cookie</a><b>cat</b><c>tok</c>");
    let body = soap_body("{2}", "x", "y", None);
    assert_eq!(body, MSA_TOKEN);
    // A placeholder brought in by an earlier value is filled too.
    let body = soap_body("{0}", "{1}", "second", Some("t"));
    assert_eq!(body, "second");
}

#[test]
fn file_url_body_needs_a_revision() {
    let ids = vec!["u1".to_string(), "u2".to_string()];
    let revs = vec!["r1".to_string()];
    assert_eq!(
        file_url_request_body("{0}/{1}/{2}", &ids, &revs, 0, Some("t")).as_deref(),
        Some("u1/r1/t")
    );
    assert_eq!(file_url_request_body("{0}/{1}/{2}", &ids, &revs, 1, Some("t")), None);
}

#[test]
fn namespaced_attributes_are_not_plain_attributes() {
    let xml = r#"<root xmlns:x="urn:x">
  <Update><UpdateIdentity x:UpdateID="ns" RevisionNumber="1"/><Properties><SecuredFragment/></Properties></Update>
  <Update><UpdateIdentity x:UpdateID="ns" UpdateID="plain" RevisionNumber="2"/><Properties><SecuredFragment/></Properties></Update>
</root>"#;
    let (ids, revs) = process_update_ids(xml).unwrap();
    assert_eq!(ids, vec!["plain"]);
    assert_eq!(revs, vec!["2"]);
}

#[test]
fn readers_of_a_parsed_document() {
    let xml = r#"<Envelope>
  <EncryptedData>C-2</EncryptedData>
  <Xml>
    <UpdateIdentity UpdateID="u-1" RevisionNumber="7"/>
    <Properties><SecuredFragment/></Properties>
  </Xml>
  <FileLocation><Url>http://a</Url><FileDigest> d1 </FileDigest></FileLocation>
  <FileLocation><FileDigest>no-url</FileDigest></FileLocation>
</Envelope>"#;
    let doc = parse_document(xml).unwrap();
    assert_eq!(cookie_of(&doc).unwrap(), "C-2");
    let (ids, revs) = update_ids_of(&doc);
    assert_eq!(ids, vec!["u-1"]);
    assert_eq!(revs, vec!["7"]);
    let locs = file_locations_of(&doc);
    assert_eq!(locs.len(), 1);
    assert_eq!(locs[0].url, "http://a");
    assert_eq!(locs[0].digest.as_deref(), Some("d1"));
}

#[test]
fn a_document_that_parses_is_never_refused() {
    // Comments, processing instructions, CDATA and non-ASCII text all give
    // a tree the readers accept.
    let xml = "<?xml version=\"1.0\"?><!-- c --><r a=\"\u{e9}\"><?pi x?><![CDATA[\u{2603}]]>t\u{e9}xt<e/></r>";
    assert!(parse_document(xml).is_ok());
    assert!(parse_file_locations(xml).unwrap().is_empty());
    assert!(matches!(parse_cookie(xml), Err(StoreError::Xml(m)) if m == "EncryptedData node not found in cookie response"));
}
