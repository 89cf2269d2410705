use rusthound_ce::api::hosts_to_resolve;
use rusthound_ce::ingest::{
    bind_method, controller_is_known, has_configuration, needs_password, needs_username,
    percentage, Action, BindMethod, Event, Fatal, Phase, Pipeline,
};
use rusthound_ce::mappings::StringMap;
use rusthound_ce::objects::computer::Computer;
use rusthound_ce::objects::decode::{get_sql_target, get_sql_targets};
use rusthound_ce::storage::buffer::BincodeObjectBuffer;
use rusthound_ce::storage::iter::read_all;

fn run(pipeline: &mut Pipeline, events: &[Event]) -> Vec<Action> {
    events.iter().map(|e| pipeline.step(*e)).collect()
}

#[test]
fn run_that_collects_two_contexts() {
    let mut p = Pipeline::new(BindMethod::Simple, false);
    assert_eq!(p.phase, Phase::Connect);
    let actions = run(
        &mut p,
        &[
            Event::Connected,
            Event::Bound,
            Event::Contexts { count: 2, with_configuration: true },
            Event::Stored,
            Event::Stored,
            Event::ContextDone,
            Event::Stored,
            Event::ContextDone,
            Event::Unbound,
            Event::Flushed,
        ],
    );
    assert_eq!(
        actions,
        vec![
            Action::Bind { method: BindMethod::Simple },
            Action::Discover,
            Action::Search { context: 0 },
            Action::Next,
            Action::Next,
            Action::Search { context: 1 },
            Action::Next,
            Action::Unbind,
            Action::Flush,
            Action::Finish { total: 3 },
        ]
    );
    assert_eq!(p.phase, Phase::Done);
    assert_eq!(p.total, 3);
}

#[test]
fn run_fails_for_each_fatal_reason() {
    let fail = |reason| Action::Fail { reason };
    let mut p = Pipeline::new(BindMethod::Ntlm, true);
    assert_eq!(p.step(Event::ConnectionFailed), fail(Fatal::Connection));
    assert_eq!(p.phase, Phase::Failed);
    assert_eq!(p.step(Event::Connected), fail(Fatal::OutOfTurn));

    let mut p = Pipeline::new(BindMethod::Gssapi, false);
    assert_eq!(p.step(Event::Connected), fail(Fatal::MissingControllerName));
    let mut p = Pipeline::new(BindMethod::Gssapi, true);
    assert_eq!(p.step(Event::Connected), Action::Bind { method: BindMethod::Gssapi });
    assert_eq!(p.step(Event::BindFailed), fail(Fatal::Authentication));

    let mut p = Pipeline::new(BindMethod::Simple, false);
    run(&mut p, &[Event::Connected, Event::Bound]);
    assert_eq!(p.step(Event::DiscoveryFailed), fail(Fatal::NamingContexts));

    // without a configuration partition nothing is queried and nothing is found
    let mut p = Pipeline::new(BindMethod::Simple, false);
    run(&mut p, &[Event::Connected, Event::Bound]);
    assert_eq!(p.step(Event::Contexts { count: 1, with_configuration: false }), fail(Fatal::NoRecords));

    // contexts that give no record at all
    let mut p = Pipeline::new(BindMethod::Simple, false);
    let actions = run(
        &mut p,
        &[
            Event::Connected,
            Event::Bound,
            Event::Contexts { count: 1, with_configuration: true },
            Event::ContextDone,
            Event::Unbound,
        ],
    );
    assert_eq!(actions[3], Action::Unbind);
    assert_eq!(actions[4], fail(Fatal::NoRecords));

    let mut p = Pipeline::new(BindMethod::Simple, false);
    run(&mut p, &[Event::Connected, Event::Bound, Event::Contexts { count: 1, with_configuration: true }]);
    assert_eq!(p.step(Event::StoreFailed), fail(Fatal::Storage));

    let mut p = Pipeline::new(BindMethod::Simple, false);
    run(
        &mut p,
        &[
            Event::Connected,
            Event::Bound,
            Event::Contexts { count: 1, with_configuration: true },
            Event::Stored,
            Event::ContextDone,
            Event::Unbound,
        ],
    );
    assert_eq!(p.step(Event::FlushFailed), fail(Fatal::Storage));
}

#[test]
fn run_with_no_context_gives_up_the_connection_at_once() {
    let mut p = Pipeline::new(BindMethod::Simple, false);
    run(&mut p, &[Event::Connected, Event::Bound]);
    assert_eq!(p.step(Event::Contexts { count: 0, with_configuration: true }), Action::Unbind);
    assert_eq!(p.phase, Phase::Unbind);
}

#[test]
fn record_count_never_wraps() {
    let mut p = Pipeline::new(BindMethod::Simple, false);
    run(&mut p, &[Event::Connected, Event::Bound, Event::Contexts { count: 1, with_configuration: true }]);
    p.total = usize::MAX - 1;
    assert_eq!(p.step(Event::Stored), Action::Next);
    assert_eq!(p.total, usize::MAX);
    assert_eq!(p.step(Event::Stored), Action::Next);
    assert_eq!(p.total, usize::MAX);
}

#[test]
fn login_decisions() {
    assert!(needs_username(false, false));
    assert!(!needs_username(true, false));
    assert!(!needs_username(false, true));
    assert!(needs_password("jorah@essos.local", false, false));
    assert!(!needs_password("jorah@essos.local", true, false));
    assert!(!needs_password("jorah@essos.local", false, true));
    assert!(!needs_password("not set@essos.local", false, false));
    assert_eq!(bind_method(true, true), BindMethod::Gssapi);
    assert_eq!(bind_method(false, true), BindMethod::Ntlm);
    assert_eq!(bind_method(false, false), BindMethod::Simple);
    assert!(controller_is_known("meereen.essos.local"));
    assert!(!controller_is_known("not set"));
}

#[test]
fn configuration_partition_and_progress() {
    assert!(has_configuration(&vec![
        "DC=essos,DC=local".to_string(),
        "CN=Configuration,DC=essos,DC=local".to_string()
    ]));
    assert!(!has_configuration(&vec!["DC=essos,DC=local".to_string()]));
    assert!(!has_configuration(&vec![]));
    assert_eq!(percentage(1, 3), Some(33));
    assert_eq!(percentage(3, 3), Some(100));
    assert_eq!(percentage(0, 3), Some(0));
    assert_eq!(percentage(1, 0), None);
    assert_eq!(percentage(usize::MAX, 10), None);
    assert_eq!(percentage(usize::MAX / 100, usize::MAX), Some(0));
}

#[test]
fn log_taken_out_piece_by_piece_is_the_whole_log() {
    let records: Vec<Vec<u8>> = vec![vec![1], vec![2, 2], vec![], vec![3, 3, 3], vec![4]];
    let mut writer = BincodeObjectBuffer::new_with_capacity(2);
    let mut file: Vec<u8> = Vec::new();
    for r in &records {
        writer.add_record(r.clone()).unwrap();
        file.extend_from_slice(&writer.take_log());
    }
    assert!(writer.take_log().is_empty());
    writer.flush_records();
    file.extend_from_slice(&writer.take_log());
    assert_eq!(read_all(file), Ok(records));
}

#[test]
fn hosts_of_enabled_computers_are_looked_up() {
    let mut fqdn_ip = StringMap::new();
    for name in ["MEEREEN.ESSOS.LOCAL", "BRAAVOS.ESSOS.LOCAL", "GONE.ESSOS.LOCAL", "OLD.ESSOS.LOCAL"] {
        fqdn_ip.insert(name.to_string(), String::new());
    }
    let computer = |name: &str, enabled: bool| {
        let mut c = Computer::new();
        c.properties.name = name.to_string();
        c.properties.enabled = enabled;
        c
    };
    let computers = vec![
        computer("BRAAVOS.ESSOS.LOCAL", true),
        computer("OLD.ESSOS.LOCAL", false),
        computer("MEEREEN.ESSOS.LOCAL", true),
        computer("MEEREEN.ESSOS.LOCAL", true),
    ];
    assert_eq!(hosts_to_resolve(&fqdn_ip, &computers), vec!["MEEREEN.ESSOS.LOCAL", "BRAAVOS.ESSOS.LOCAL"]);
    assert!(hosts_to_resolve(&fqdn_ip, &vec![]).is_empty());
}

#[test]
fn database_services_among_service_names() {
    let t = get_sql_target("MSSQLSvc/braavos.essos.local:1435").unwrap();
    assert_eq!((t.computer_sid.as_str(), t.port, t.service.as_str()), ("BRAAVOS.ESSOS.LOCAL", 1435, "SQLAdmin"));
    let t = get_sql_target("MSSQLSvc/braavos.essos.local").unwrap();
    assert_eq!(t.port, 1433);
    let t = get_sql_target("MSSQLSvc/braavos.essos.local:SQLEXPRESS").unwrap();
    assert_eq!(t.port, 1433);
    assert!(get_sql_target("HTTP/braavos.essos.local").is_none());
    assert!(get_sql_target("MSSQLSvc").is_none());
    let all = get_sql_targets(&vec![
        "HOST/a".to_string(),
        "MSSQLSvc/a:1".to_string(),
        "MSSQLSvc/b".to_string(),
    ]);
    let got: Vec<(&str, i64)> = all.iter().map(|t| (t.computer_sid.as_str(), t.port)).collect();
    assert_eq!(got, vec![("A", 1), ("B", 1433)]);
}
