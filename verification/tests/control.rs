//! The control channel, the `--set-dpi` flag, and the choice of a device.

use openlogi::cli::CliOutcome;
use openlogi::control::{
    apply_set_dpi, conclude_set_dpi, dispatch, handle_line, plan_set_dpi, request_line,
    run_set_dpi_cli, set_dpi_standalone, set_dpi_via_server, ControlOrder, DpiPlan, ServerReply,
    StandaloneEnd, DPI_MAX, DPI_MIN, PORT,
};
use openlogi::device::{
    first_online_device, same_route, DeviceRoute, Inventory, PairedDevice, Receiver,
};

fn route() -> DeviceRoute {
    DeviceRoute::Bolt { receiver_uid: "A1B2".to_string(), slot: 2 }
}

fn response(order: ControlOrder) -> String {
    match order {
        ControlOrder::Respond(line) => line,
        other => panic!("{other:?}"),
    }
}

fn parts(o: &CliOutcome) -> (i32, bool, &str) {
    (o.code, o.to_stderr, o.message.as_str())
}

#[test]
fn constants_of_the_channel() {
    assert_eq!((PORT, DPI_MIN, DPI_MAX), (47800, 200, 6400));
}

#[test]
fn a_request_within_range_is_written() {
    for line in ["set-dpi 800", "  set-dpi\t800  ignored", "set-dpi +0800"] {
        match dispatch(line, Some(route())) {
            ControlOrder::WriteDpi { target, dpi } => {
                assert_eq!(dpi, 800);
                assert!(same_route(&target, &route()));
            }
            other => panic!("{other:?}"),
        }
    }
    for dpi in [DPI_MIN, DPI_MAX] {
        assert!(matches!(
            apply_set_dpi(dpi, Some(route())),
            ControlOrder::WriteDpi { dpi: d, .. } if d == dpi
        ));
    }
}

#[test]
fn every_refusal_has_its_response() {
    let refuse = |line: &str| response(handle_line(line, Some(route())));
    assert_eq!(refuse("\n"), "err empty command");
    assert_eq!(refuse(""), "err empty command");
    assert_eq!(refuse("set-dpi\n"), "err missing DPI value");
    assert_eq!(refuse("set-dpi abc\n"), "err invalid DPI value");
    assert_eq!(refuse("set-dpi 65536\n"), "err invalid DPI value");
    assert_eq!(refuse("set-dpi -1\n"), "err invalid DPI value");
    assert_eq!(refuse("Set-Dpi 800\n"), "err unknown command 'Set-Dpi'");
    assert_eq!(refuse("set-dpi 199\n"), "err DPI 199 out of range 200-6400");
    assert_eq!(refuse("set-dpi 6401\n"), "err DPI 6401 out of range 200-6400");
    assert_eq!(response(handle_line("set-dpi 800\n", None)), "err no active device");
    assert_eq!(
        response(handle_line("set-dpi 100\n", None)),
        "err DPI 100 out of range 200-6400"
    );
}

#[test]
fn write_results_become_responses() {
    assert_eq!(conclude_set_dpi(800, Ok(true)), ("ok 800".to_string(), Some(800)));
    assert_eq!(conclude_set_dpi(800, Ok(false)), ("ok 800".to_string(), Some(800)));
    assert_eq!(
        conclude_set_dpi(800, Err("device asleep".to_string())),
        ("err device asleep".to_string(), None)
    );
}

#[test]
fn argument_of_the_flag() {
    assert_eq!(run_set_dpi_cli(" 1600 ").unwrap(), 1600);
    assert_eq!(run_set_dpi_cli("0").unwrap(), 0);
    for raw in ["", "abc", "1.5", "70000"] {
        let outcome = run_set_dpi_cli(raw).unwrap_err();
        let message = format!("--set-dpi needs a whole number, got '{raw}'");
        assert_eq!(parts(&outcome), (2, true, message.as_str()));
    }
}

#[test]
fn a_running_instance_is_asked_first() {
    assert!(matches!(plan_set_dpi(800, true), DpiPlan::Ask(l) if l == "set-dpi 800\n"));
    assert!(matches!(plan_set_dpi(1, true), DpiPlan::Ask(l) if l == "set-dpi 1\n"));
    assert!(matches!(plan_set_dpi(800, false), DpiPlan::OpenDevice));
    match plan_set_dpi(1, false) {
        DpiPlan::Exit(o) => assert_eq!(parts(&o), (1, true, "DPI 1 out of range 200-6400")),
        other => panic!("{other:?}"),
    }
}

#[test]
fn request_round_trip() {
    for dpi in [0, 1, 200, 800, 6400, u16::MAX] {
        let line = request_line(dpi);
        assert_eq!(line, format!("set-dpi {dpi}\n"));
        match handle_line(&line, Some(route())) {
            ControlOrder::WriteDpi { dpi: d, .. } => {
                assert_eq!(d, dpi);
                assert!((DPI_MIN..=DPI_MAX).contains(&d));
            }
            ControlOrder::Respond(r) => {
                assert!(!(DPI_MIN..=DPI_MAX).contains(&dpi));
                assert_eq!(r, format!("err DPI {dpi} out of range 200-6400"));
            }
        }
    }
}

#[test]
fn set_dpi_end_to_end() {
    let ControlOrder::WriteDpi { dpi, .. } = handle_line(&request_line(800), Some(route())) else {
        panic!("not written");
    };
    let (line, label) = conclude_set_dpi(dpi, Ok(true));
    assert_eq!(label, Some(800));
    let outcome = set_dpi_via_server(&ServerReply::Line(line + "\n"));
    assert_eq!(parts(&outcome), (0, false, "DPI set to 800 (via running OpenLogi)."));
}

#[test]
fn out_of_range_is_refused_end_to_end() {
    let line = response(handle_line(&request_line(9000), Some(route())));
    let outcome = set_dpi_via_server(&ServerReply::Line(line + "\n"));
    assert_eq!(
        parts(&outcome),
        (1, true, "DPI change failed: DPI 9000 out of range 200-6400")
    );
}

#[test]
fn error_reply_is_reported() {
    let (line, _) = conclude_set_dpi(800, Err("device asleep".to_string()));
    let outcome = set_dpi_via_server(&ServerReply::Line(line + "\n"));
    assert_eq!(parts(&outcome), (1, true, "DPI change failed: device asleep"));
}

#[test]
fn other_answers_are_reported() {
    let told = |reply: ServerReply| {
        let o = set_dpi_via_server(&reply);
        (o.code, o.to_stderr, o.message)
    };
    let failed = |m: &str| (1, true, m.to_string());
    assert_eq!(
        told(ServerReply::ConnectionFailed("x".to_string())),
        failed("control connection failed: x")
    );
    assert_eq!(told(ServerReply::WriteFailed("x".to_string())), failed("control write failed: x"));
    assert_eq!(told(ServerReply::ReadFailed("x".to_string())), failed("control read failed: x"));
    assert_eq!(told(ServerReply::Line("huh\r\n".to_string())), failed("DPI change failed: huh"));
    assert_eq!(told(ServerReply::Line("ok\n".to_string())), failed("DPI change failed: ok"));
    assert_eq!(told(ServerReply::Line(String::new())), failed("DPI change failed: "));
}

#[test]
fn direct_access_is_reported() {
    let told = |end: StandaloneEnd| {
        let o = set_dpi_standalone(1200, &end);
        (o.code, o.to_stderr, o.message)
    };
    assert_eq!(told(StandaloneEnd::Applied), (0, false, "DPI set to 1200.".to_string()));
    assert_eq!(
        told(StandaloneEnd::Failed("gone".to_string())),
        (1, true, "DPI change failed: gone".to_string())
    );
    assert_eq!(
        told(StandaloneEnd::NoRuntime("no epoll".to_string())),
        (1, true, "runtime init failed: no epoll".to_string())
    );
    for dpi in [199, 6401] {
        let o = set_dpi_standalone(dpi, &StandaloneEnd::Applied);
        let message = format!("DPI {dpi} out of range 200-6400");
        assert_eq!(parts(&o), (1, true, message.as_str()));
    }
}

fn inventory(uid: Option<&str>, paired: &[(u8, bool)]) -> Inventory {
    Inventory {
        receiver: Receiver {
            unique_id: uid.map(str::to_string),
            vendor_id: 0x046d,
            product_id: 0xc548,
        },
        paired: paired.iter().map(|&(slot, online)| PairedDevice { slot, online }).collect(),
    }
}

#[test]
fn first_online_device_is_chosen() {
    let found = first_online_device(&vec![
        inventory(Some("R1"), &[(1, false)]),
        inventory(Some("R2"), &[(1, false), (3, true), (4, true)]),
        inventory(None, &[(1, true)]),
    ])
    .unwrap();
    assert!(same_route(
        &found,
        &DeviceRoute::Bolt { receiver_uid: "R2".to_string(), slot: 3 }
    ));
    let direct = first_online_device(&vec![inventory(None, &[(0, true)])]).unwrap();
    assert!(same_route(
        &direct,
        &DeviceRoute::Direct { vendor_id: 0x046d, product_id: 0xc548 }
    ));
}

#[test]
fn no_online_device_is_an_error() {
    for list in [vec![], vec![inventory(Some("R1"), &[(1, false)]), inventory(None, &[])]] {
        assert_eq!(
            first_online_device(&list).unwrap_err(),
            "no online HID++ device found — is a Logi mouse paired?"
        );
    }
}

#[test]
fn routes_compare_by_every_part() {
    let bolt = |uid: &str, slot| DeviceRoute::Bolt { receiver_uid: uid.to_string(), slot };
    let direct = |v, p| DeviceRoute::Direct { vendor_id: v, product_id: p };
    assert!(same_route(&bolt("a", 1), &bolt("a", 1).clone()));
    assert!(!same_route(&bolt("a", 1), &bolt("a", 2)));
    assert!(!same_route(&bolt("a", 1), &bolt("b", 1)));
    assert!(same_route(&direct(1, 2), &direct(1, 2)));
    assert!(!same_route(&direct(1, 2), &direct(1, 3)));
    assert!(!same_route(&direct(1, 2), &bolt("a", 1)));
}
