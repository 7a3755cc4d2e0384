use proxly::server_name::{
    check_server_name, find_tls_server_name, normalize_dns_name, LookupOutcome, NameError,
};

fn names(list: &[&str]) -> LookupOutcome {
    LookupOutcome::Names(list.iter().map(|name| name.to_string()).collect())
}

#[test]
fn strips_the_root_zone_dot() {
    assert_eq!(normalize_dns_name("service.internal."), "service.internal");
}

#[test]
fn leaves_a_name_without_trailing_dot_alone() {
    assert_eq!(normalize_dns_name("service.internal"), "service.internal");
    assert_eq!(normalize_dns_name(".service"), ".service");
    assert_eq!(normalize_dns_name(""), "");
}

#[test]
fn strips_a_single_dot_only() {
    assert_eq!(normalize_dns_name("service.internal.."), "service.internal.");
    assert_eq!(normalize_dns_name("."), "");
    assert_eq!(normalize_dns_name(".."), ".");
}

#[test]
fn strips_by_characters_not_bytes() {
    assert_eq!(normalize_dns_name("bücher.example."), "bücher.example");
    assert_eq!(normalize_dns_name("例え."), "例え");
    assert_eq!(normalize_dns_name("例え"), "例え");
}

#[test]
fn uses_the_first_name_of_the_answer() {
    assert_eq!(
        find_tls_server_name(&names(&["first.internal.", "second.internal."])),
        Ok("first.internal".to_string())
    );
    assert_eq!(
        find_tls_server_name(&names(&["ts-unproxied.default.svc.cluster.local."])),
        Ok("ts-unproxied.default.svc.cluster.local".to_string())
    );
}

#[test]
fn accepts_a_name_that_has_no_dot_to_strip() {
    assert_eq!(find_tls_server_name(&names(&["svc.internal"])), Ok("svc.internal".to_string()));
    assert_eq!(find_tls_server_name(&names(&["localhost"])), Ok("localhost".to_string()));
}

#[test]
fn no_record_means_no_name() {
    assert_eq!(find_tls_server_name(&LookupOutcome::NoRecords), Err(NameError::NoNameFound));
    assert_eq!(find_tls_server_name(&names(&[])), Err(NameError::NoNameFound));
}

#[test]
fn failed_lookup_is_a_resolution_error() {
    assert_eq!(find_tls_server_name(&LookupOutcome::Failed), Err(NameError::ResolutionError));
}

#[test]
fn rejects_what_is_no_dns_name() {
    for bad in ["not a name.", "-leading.example.", "trailing-.example.", "a..b.", "exa$mple.com"] {
        assert_eq!(find_tls_server_name(&names(&[bad])), Err(NameError::InvalidName), "{}", bad);
    }
}

#[test]
fn rejects_the_root_alone_and_the_empty_name() {
    assert_eq!(find_tls_server_name(&names(&["."])), Err(NameError::InvalidName));
    assert_eq!(find_tls_server_name(&names(&[""])), Err(NameError::InvalidName));
}

#[test]
fn rejects_an_address_in_place_of_a_name() {
    assert_eq!(find_tls_server_name(&names(&["10.1.2.3."])), Err(NameError::InvalidName));
}

#[test]
fn an_invalid_first_name_is_not_replaced_by_a_later_one() {
    assert_eq!(
        find_tls_server_name(&names(&["not a name.", "good.internal."])),
        Err(NameError::InvalidName)
    );
}

#[test]
fn rejects_a_name_over_the_length_limit() {
    let label = "a".repeat(63);
    let long = format!("{0}.{0}.{0}.{0}.", label);
    assert_eq!(long.len(), 256);
    assert_eq!(find_tls_server_name(&names(&[&long])), Err(NameError::InvalidName));
    let fits = format!("{0}.{0}.{0}.{1}.", label, "a".repeat(61));
    assert_eq!(fits.len(), 254);
    assert_eq!(
        find_tls_server_name(&names(&[&fits])),
        Ok(fits[..253].to_string())
    );
}

#[test]
fn decides_on_a_candidate_by_the_verdict_given() {
    assert_eq!(check_server_name("svc.internal".to_string(), true), Ok("svc.internal".to_string()));
    assert_eq!(check_server_name("svc.internal".to_string(), false), Err(NameError::InvalidName));
    assert_eq!(check_server_name(String::new(), false), Err(NameError::InvalidName));
}
