use lvm2_cmd::command::{Invocation, ProcessOutput};
use lvm2_cmd::error::LVMError;
use lvm2_cmd::lv::{LVCreateOptions, LVState, LVVolumeType, LogicalVolume};
use lvm2_cmd::vg::{VGCreateOptions, VolumeGroup};
use lvm2_cmd::{ResourceCapacity, ResourceName, ResourceUUID};

const LV_REPORT: &str = r#"{
  "report": [
    {
      "lv": [
        {"lv_uuid":"abcdef-1234-5678-90ab-cdef-1234-567890", "lv_name":"root", "lv_path":"/dev/vg0/root",
         "vg_name":"vg0", "lv_attr":"-wi-ao----", "lv_size":"21474836480", "pool_lv":"", "seg_count":"1"},
        {"lv_uuid":"ABCDEF-1234-5678-90ab-cdef-1234-567890", "lv_name":"pool", "lv_path":"",
         "vg_name":"vg0", "lv_attr":"twi-a-tz--", "lv_size":1048576}
      ]
    }
  ]
}"#;

const VG_REPORT: &str = r#"{"report":[{"vg":[
  {"vg_name":"vg0", "vg_uuid":"zyxwvu-1234-5678-90ab-cdef-1234-567890", "vg_size":"107374182400",
   "lv_count":"2", "pv_count":"1", "snap_count":"0", "vg_free":"4194304", "vg_attr":"wz--n-"}
]}]}"#;

fn name(s: &str) -> ResourceName {
    ResourceName::new(s).unwrap()
}

fn ok(stdout: &str) -> ProcessOutput {
    ProcessOutput { exit_code: Some(0), stdout: stdout.as_bytes().to_vec(), stderr: vec![] }
}

fn strings(v: &[&str]) -> Vec<String> {
    v.iter().map(|s| s.to_string()).collect()
}

#[test]
fn lv_report_decodes_every_volume_in_order() {
    let inv = LogicalVolume::list();
    let lvs = LogicalVolume::from_report(&inv, &ok(LV_REPORT)).unwrap();
    assert_eq!(lvs.len(), 2);
    assert_eq!(lvs[0].name.as_str(), "root");
    assert_eq!(lvs[0].volume_group_name.as_str(), "vg0");
    assert_eq!(lvs[0].capacity_bytes.bytes(), 21474836480);
    assert_eq!(lvs[0].path, "/dev/vg0/root");
    assert_eq!(lvs[0].attributes.state, LVState::Active);
    assert_eq!(lvs[0].id(), "vg0/root");
    assert_eq!(lvs[1].name.as_str(), "pool");
    assert_eq!(lvs[1].capacity_bytes.bytes(), 1048576);
    assert_eq!(lvs[1].attributes.volume_type, LVVolumeType::ThinPool { data: false });
    assert_eq!(lvs[1].uuid.as_str(), "ABCDEF-1234-5678-90ab-cdef-1234-567890");
}

#[test]
fn one_bad_record_fails_the_whole_report() {
    let bad = LV_REPORT.replace("\"lv_size\":1048576", "\"lv_size\":1000");
    match LogicalVolume::from_report(&LogicalVolume::list(), &ok(&bad)) {
        Err(LVMError::MalformedOutput { cause, result }) => {
            assert_eq!(cause, "could not decode wrapped type as JSON");
            assert!(result.contains("lv_size"));
        }
        other => panic!("unexpected {:?}", other),
    }
    let bad = LV_REPORT.replace("twi-a-tz--", "twi-Q-tz--");
    match LogicalVolume::from_report(&LogicalVolume::list(), &ok(&bad)) {
        Err(LVMError::MalformedOutput { result, .. }) => {
            assert_eq!(result, "invalid field `lv_attr`: invalid flag for state: Q")
        }
        other => panic!("unexpected {:?}", other),
    }
    let bad = LV_REPORT.replace("\"lv_name\":\"pool\"", "\"lv_name\":\"po ol\"");
    assert!(LogicalVolume::from_report(&LogicalVolume::list(), &ok(&bad)).is_err());
}

#[test]
fn lookup_takes_the_last_record_or_reports_not_found() {
    let inv = LogicalVolume::from_id(&name("vg0"), &name("pool"));
    let lv = LogicalVolume::one_from_report(&inv, "vg0/pool", &ok(LV_REPORT)).unwrap();
    assert_eq!(lv.name.as_str(), "pool");
    match LogicalVolume::one_from_report(&inv, "vg0/pool", &ok(r#"{"report":[{"lv":[]}]}"#)) {
        Err(LVMError::NotFound { resource }) => assert_eq!(resource, "vg0/pool"),
        other => panic!("unexpected {:?}", other),
    }
}

#[test]
fn lookup_exit_code_five_is_not_found() {
    let inv = LogicalVolume::from_id(&name("vg0"), &name("gone"));
    let out = ProcessOutput { exit_code: Some(5), stdout: vec![], stderr: b"not found".to_vec() };
    match LogicalVolume::one_from_report(&inv, "vg0/gone", &out) {
        Err(LVMError::NotFound { resource }) => assert_eq!(resource, "vg0/gone"),
        other => panic!("unexpected {:?}", other),
    }
}

#[test]
fn lv_queries_build_their_arguments() {
    let opts = ["--nolocking", "--options", "+lv_all", "--units", "b", "--nosuffix"];
    let inv = LogicalVolume::from_id(&name("vg0"), &name("root"));
    assert_eq!(inv.command, "lvs");
    assert_eq!(inv.args, strings(&[&opts[..], &["vg0/root"]].concat()));
    let inv = LogicalVolume::list_for_vg(&name("vg0"));
    assert_eq!(inv.args, strings(&[&opts[..], &["--sort", "vg_name,lv_name", "vg0"]].concat()));
    let inv = LogicalVolume::list();
    assert_eq!(inv.args, strings(&[&opts[..], &["--sort", "vg_name,lv_name", ""]].concat()));
    let uuid = ResourceUUID::new("abcdef-1234-5678-90ab-cdef-1234-567890").unwrap();
    let inv = LogicalVolume::from_uuid(&uuid);
    assert_eq!(
        inv.args,
        strings(&[&opts[..], &["--select", "uuid=abcdef-1234-5678-90ab-cdef-1234-567890"]].concat())
    );
}

#[test]
fn lv_create_builds_its_arguments_and_then_looks_up() {
    let opts = LVCreateOptions {
        activate: false,
        capacity_bytes: ResourceCapacity::from_nearest(1_000_000),
        name: name("data-01"),
        tags: vec!["a".to_string(), "b c".to_string()],
    };
    let inv = LogicalVolume::create(&name("vg0"), &opts);
    assert_eq!(inv.command, "lvcreate");
    assert_eq!(
        inv.args,
        strings(&[
            "--activate", "an", "--name", "data-01", "--size", "1000448B", "--addtag", "a",
            "--addtag", "b c", "vg0",
        ])
    );
    let next = LogicalVolume::create_output(&name("vg0"), &opts, &inv, &ok("")).unwrap();
    assert_eq!(next.command, "lvs");
    assert_eq!(next.args.last().unwrap(), "vg0/data-01");
    let failed = ProcessOutput { exit_code: Some(5), stdout: vec![], stderr: vec![] };
    match LogicalVolume::create_output(&name("vg0"), &opts, &inv, &failed) {
        Err(LVMError::NotFound { resource }) => assert_eq!(resource, "vg0"),
        other => panic!("unexpected {:?}", other),
    }
}

#[test]
fn delete_consumes_the_volume() {
    let inv = LogicalVolume::list();
    let lv = LogicalVolume::from_report(&inv, &ok(LV_REPORT)).unwrap().remove(0);
    let del: Invocation = lv.delete();
    assert_eq!(del.command, "lvremove");
    assert_eq!(del.args, strings(&["--force", "vg0/root"]));
}

#[test]
fn activation_commands() {
    let mut lv = LogicalVolume::from_report(&LogicalVolume::list(), &ok(LV_REPORT)).unwrap().remove(0);
    assert_eq!(lv.activate().args, strings(&["--activate", "ay"]));
    assert_eq!(lv.deactivate().args, strings(&["--activate", "n"]));
    assert_eq!(lv.set_activated(true).command, "lvchange");
    assert_eq!(lv.name.as_str(), "root");
}

#[test]
fn vg_report_decodes() {
    let vgs = VolumeGroup::from_report(&VolumeGroup::list(), &ok(VG_REPORT)).unwrap();
    assert_eq!(vgs.len(), 1);
    let vg = &vgs[0];
    assert_eq!(vg.name.as_str(), "vg0");
    assert_eq!(vg.capacity_bytes.bytes(), 107374182400);
    assert_eq!(vg.lv_count, 2);
    assert_eq!(vg.pv_count, 1);
    assert_eq!(vg.snap_count, 0);
    assert_eq!(vg.space_free_bytes, 4194304);
    assert!(vg.attributes.is_resizeable);
    let one = VolumeGroup::one_from_report(&VolumeGroup::from_id(&name("vg0")), "vg0", &ok(VG_REPORT));
    assert_eq!(one.unwrap().uuid.as_str(), "zyxwvu-1234-5678-90ab-cdef-1234-567890");
}

#[test]
fn vg_commands_build_their_arguments() {
    let opts = ["--nolocking", "--options", "+vg_all", "--units", "b", "--nosuffix"];
    assert_eq!(VolumeGroup::list().args, strings(&[&opts[..], &["--sort", "vg_name"]].concat()));
    assert_eq!(
        VolumeGroup::from_id(&name("vg0")).args,
        strings(&[&opts[..], &["--sort", "vg_name", "vg0"]].concat())
    );
    let create = VGCreateOptions {
        name: name("vg1"),
        is_clustered: None,
        max_logical_volumes: Some(255),
        max_physical_volumes: None,
    };
    let inv = VolumeGroup::create(&vec!["/dev/sdb".to_string(), "/dev/sdc".to_string()], &create);
    assert_eq!(inv.command, "vgcreate");
    assert_eq!(
        inv.args,
        strings(&[
            "--clustered", "n", "--maxlogicalvolumes", "255", "--maxphysicalvolumes", "0", "vg1",
            "/dev/sdb", "/dev/sdc",
        ])
    );
    let next = VolumeGroup::create_output(&create, &inv, &ok("")).unwrap();
    assert_eq!(next.args.last().unwrap(), "vg1");
}

#[test]
fn vg_volume_operations() {
    let vg = VolumeGroup::from_report(&VolumeGroup::list(), &ok(VG_REPORT)).unwrap().remove(0);
    assert_eq!(vg.list_lvs().args.last().unwrap(), "vg0");
    let opts = LVCreateOptions {
        activate: true,
        capacity_bytes: ResourceCapacity::new(4096).unwrap(),
        name: name("x"),
        tags: vec![],
    };
    assert_eq!(vg.add_lv(&opts).args[1], "ay");
    let lookup = vg.remove_lv(&name("root"));
    assert_eq!(lookup.args.last().unwrap(), "vg0/root");
    let next = vg.remove_lv_output(&name("root"), &lookup, &ok(LV_REPORT)).unwrap();
    assert_eq!(next.command, "lvremove");
    assert_eq!(next.args, strings(&["--force", "vg0/pool"]));
    let empty = ok(r#"{"report":[{"lv":[]}]}"#);
    assert!(matches!(
        vg.remove_lv_output(&name("root"), &lookup, &empty),
        Err(LVMError::NotFound { resource }) if resource == "vg0/root"
    ));
}
