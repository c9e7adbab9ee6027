use vmforge::ProvisionError;
use vmforge::VmDescription;
use vmforge::decimal::u32_decimal;
use vmforge::sequence::SequenceRun;
use vmforge::sequence::run_with_outcomes;
use vmforge::sequence::success_message;
use vmforge::steps::disk_image_path;
use vmforge::steps::hypervisor_tool;
use vmforge::steps::plan_steps;

fn description(iso: Option<&str>) -> VmDescription {
    VmDescription {
        name: "test-vm".to_string(),
        os_type: "Linux_64".to_string(),
        memory_mb: 2048,
        cpu_count: 2,
        disk_size_mb: 20000,
        iso_path: iso.map(|s| s.to_string()),
    }
}

#[test]
fn five_steps_without_iso() {
    let steps = plan_steps(&description(None));
    assert_eq!(steps.len(), 5);
}

#[test]
fn seven_steps_with_iso() {
    let steps = plan_steps(&description(Some("/images/installer.iso")));
    assert_eq!(steps.len(), 7);
}

#[test]
fn steps_come_in_the_fixed_order() {
    let steps = plan_steps(&description(Some("/images/installer.iso")));
    let subcommands: Vec<&str> = steps.iter().map(|s| s.args[0].as_str()).collect();
    assert_eq!(
        subcommands,
        vec![
            "createvm",
            "modifyvm",
            "createhd",
            "storagectl",
            "storageattach",
            "storagectl",
            "storageattach",
        ]
    );
    let labels: Vec<&str> = steps.iter().map(|s| s.label.as_str()).collect();
    assert_eq!(
        labels,
        vec![
            "create VM",
            "configure VM",
            "create disk",
            "add storage controller",
            "attach disk",
            "add IDE controller",
            "attach ISO",
        ]
    );
}

#[test]
fn register_step_arguments_are_exact() {
    let steps = plan_steps(&description(None));
    assert_eq!(
        steps[0].args,
        vec!["createvm", "--name", "test-vm", "--ostype", "Linux_64", "--register"]
    );
}

#[test]
fn configure_step_renders_the_quantities() {
    let steps = plan_steps(&description(None));
    assert_eq!(
        steps[1].args,
        vec!["modifyvm", "test-vm", "--memory", "2048", "--cpus", "2", "--nic1", "nat"]
    );
}

#[test]
fn disk_steps_use_the_derived_path() {
    let steps = plan_steps(&description(None));
    let path = "~/VirtualBox VMs/test-vm/test-vm.vdi";
    assert_eq!(steps[2].args, vec!["createhd", "--filename", path, "--size", "20000"]);
    assert_eq!(
        steps[3].args,
        vec![
            "storagectl",
            "test-vm",
            "--name",
            "SATA Controller",
            "--add",
            "sata",
            "--controller",
            "IntelAhci",
        ]
    );
    assert_eq!(
        steps[4].args,
        vec![
            "storageattach",
            "test-vm",
            "--storagectl",
            "SATA Controller",
            "--port",
            "0",
            "--device",
            "0",
            "--type",
            "hdd",
            "--medium",
            path,
        ]
    );
}

#[test]
fn optical_steps_reference_exactly_the_iso_path() {
    let steps = plan_steps(&description(Some("/images/installer.iso")));
    assert_eq!(
        steps[5].args,
        vec!["storagectl", "test-vm", "--name", "IDE Controller", "--add", "ide"]
    );
    assert_eq!(
        steps[6].args,
        vec![
            "storageattach",
            "test-vm",
            "--storagectl",
            "IDE Controller",
            "--port",
            "0",
            "--device",
            "0",
            "--type",
            "dvddrive",
            "--medium",
            "/images/installer.iso",
        ]
    );
}

#[test]
fn disk_path_is_deterministic_in_the_name() {
    assert_eq!(disk_image_path("test-vm"), "~/VirtualBox VMs/test-vm/test-vm.vdi");
    assert_eq!(disk_image_path("test-vm"), disk_image_path("test-vm"));
    assert_eq!(disk_image_path("other"), "~/VirtualBox VMs/other/other.vdi");
}

#[test]
fn decimal_rendering_is_exact() {
    assert_eq!(u32_decimal(0), "0");
    assert_eq!(u32_decimal(7), "7");
    assert_eq!(u32_decimal(10), "10");
    assert_eq!(u32_decimal(2048), "2048");
    assert_eq!(u32_decimal(u32::MAX), "4294967295");
}

#[test]
fn tool_name_is_fixed() {
    assert_eq!(hypervisor_tool(), "VBoxManage");
}

#[test]
fn successful_run_attempts_every_step() {
    let d = description(Some("/images/installer.iso"));
    let outcomes: Vec<Result<(), String>> = vec![Ok(()); 7];
    let (attempted, report) = run_with_outcomes(&d, &outcomes);
    assert_eq!(attempted, 7);
    assert_eq!(report.expect("run must succeed"), "VM 'test-vm' created successfully!");
}

#[test]
fn dispatch_failure_halts_at_each_index() {
    let d = description(Some("/images/installer.iso"));
    let labels = [
        "create VM",
        "configure VM",
        "create disk",
        "add storage controller",
        "attach disk",
        "add IDE controller",
        "attach ISO",
    ];
    for fail_at in 0..7 {
        let mut outcomes: Vec<Result<(), String>> = vec![Ok(()); 7];
        outcomes[fail_at] = Err("spawn failed".to_string());
        let (attempted, report) = run_with_outcomes(&d, &outcomes);
        assert_eq!(attempted, fail_at + 1);
        let e = report.expect_err("run must fail");
        match &e {
            ProvisionError::StepDispatchFailure { step, cause } => {
                assert_eq!(step.as_str(), labels[fail_at]);
                assert_eq!(cause.as_str(), "spawn failed");
            }
            other => panic!("unexpected error: {}", other.message()),
        }
        assert_eq!(
            e.message(),
            format!("Failed to {}: spawn failed", labels[fail_at])
        );
    }
}

#[test]
fn second_run_registration_failure_is_surfaced() {
    let d = description(None);
    let first: Vec<Result<(), String>> = vec![Ok(()); 5];
    let (attempted, report) = run_with_outcomes(&d, &first);
    assert_eq!(attempted, 5);
    assert!(report.is_ok());
    let second: Vec<Result<(), String>> = vec![
        Err("VM 'test-vm' already exists".to_string()),
        Ok(()),
        Ok(()),
        Ok(()),
        Ok(()),
    ];
    let (attempted, report) = run_with_outcomes(&d, &second);
    assert_eq!(attempted, 1);
    let e = report.expect_err("duplicate registration must surface");
    assert_eq!(
        e.message(),
        "Failed to create VM: VM 'test-vm' already exists"
    );
}

#[test]
fn run_hands_out_steps_until_told_of_a_failure() {
    let d = description(None);
    let mut run = SequenceRun::start(&d);
    assert_eq!(run.attempted_count(), 0);
    let first = run.next_step().expect("a fresh run has a step");
    assert_eq!(first.args[0], "createvm");
    run.note_dispatched();
    assert_eq!(run.attempted_count(), 1);
    run.note_dispatch_failure("spawn failed".to_string());
    assert_eq!(run.attempted_count(), 2);
    assert!(run.next_step().is_none());
    assert!(!run.is_in_progress());
    let e = run.into_result().expect_err("a failed run reports its failure");
    assert_eq!(e.message(), "Failed to configure VM: spawn failed");
}

#[test]
fn completed_run_reports_the_confirmation() {
    let d = description(None);
    let mut run = SequenceRun::start(&d);
    while run.is_in_progress() {
        run.note_dispatched();
    }
    assert!(run.next_step().is_none());
    let msg = run.into_result().expect("a completed run succeeds");
    assert_eq!(msg, "VM 'test-vm' created successfully!");
    assert_eq!(success_message("other"), "VM 'other' created successfully!");
}

#[test]
fn error_messages_are_exact() {
    let unreadable = ProvisionError::ConfigUnreadable { cause: "no such file".to_string() };
    assert_eq!(unreadable.message(), "Failed to read the config file: no such file");
    let malformed = ProvisionError::ConfigMalformed { cause: "bad".to_string() };
    assert_eq!(malformed.message(), "Failed to parse TOML: bad");
    let dispatch = ProvisionError::StepDispatchFailure {
        step: "create VM".to_string(),
        cause: "spawn failed".to_string(),
    };
    assert_eq!(dispatch.message(), "Failed to create VM: spawn failed");
}
