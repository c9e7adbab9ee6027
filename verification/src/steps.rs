//! The fixed, ordered sequence of hypervisor operations that provisions one
//! virtual machine, as data: each step is the argument list of one external
//! command, with a label used when its dispatch fails.

use vstd::prelude::*;
use vstd::string::StringExecFns;
use crate::decimal::decimal_spec;
use crate::decimal::u32_decimal;
use crate::description::VmDescription;

verus! {

/// One unit of work: a single invocation of the hypervisor control tool.
#[derive(Debug)]
pub struct Step {
    /// Phrase naming the operation in the failure diagnostic.
    pub label: String,
    /// The arguments handed to the hypervisor tool, subcommand first.
    pub args: Vec<String>,
}

/// The mathematical shape of a step: its label and argument texts.
#[verifier::ext_equal]
pub ghost struct StepModel {
    pub label: Seq<char>,
    pub args: Seq<Seq<char>>,
}

impl View for Step {
    type V = StepModel;

    open spec fn view(&self) -> StepModel {
        StepModel { label: self.label@, args: self.args.deep_view() }
    }
}

impl DeepView for Step {
    type V = StepModel;

    open spec fn deep_view(&self) -> StepModel {
        self.view()
    }
}

/// The command-line name of the hypervisor control tool.
pub fn hypervisor_tool() -> (r: &'static str)
    ensures
        r@ == "VBoxManage"@,
{
    "VBoxManage"
}

/// The path of the primary disk image, derived from the VM name alone:
/// `<per-user VM storage root>/<name>/<name>.vdi`.
pub open spec fn disk_path_spec(name: Seq<char>) -> Seq<char> {
    "~/VirtualBox VMs/"@ + name + "/"@ + name + ".vdi"@
}

/// The derived disk image path depends on the name alone: equal names give
/// equal paths, whatever else the two descriptions hold.
pub proof fn lemma_disk_path_deterministic(a: Seq<char>, b: Seq<char>)
    requires
        a == b,
    ensures
        disk_path_spec(a) == disk_path_spec(b),
{
}

/// Renders the derived disk image path for `name`.
pub fn disk_image_path(name: &str) -> (r: String)
    ensures
        r@ == disk_path_spec(name@),
{
    let mut r = String::from_str("~/VirtualBox VMs/");
    r.append(name);
    r.append("/");
    r.append(name);
    r.append(".vdi");
    r
}

/// Step 1: create and register the VM identity.
pub open spec fn register_model(d: VmDescription) -> StepModel {
    StepModel {
        label: "create VM"@,
        args: seq!["createvm"@, "--name"@, d.name@, "--ostype"@, d.os_type@, "--register"@],
    }
}

/// Step 2: set memory and CPU count, and attach the default NAT interface.
pub open spec fn configure_model(d: VmDescription) -> StepModel {
    StepModel {
        label: "configure VM"@,
        args: seq![
            "modifyvm"@,
            d.name@,
            "--memory"@,
            decimal_spec(d.memory_mb as nat),
            "--cpus"@,
            decimal_spec(d.cpu_count as nat),
            "--nic1"@,
            "nat"@,
        ],
    }
}

/// Step 3: allocate the primary disk image at the derived path.
pub open spec fn create_disk_model(d: VmDescription) -> StepModel {
    StepModel {
        label: "create disk"@,
        args: seq![
            "createhd"@,
            "--filename"@,
            disk_path_spec(d.name@),
            "--size"@,
            decimal_spec(d.disk_size_mb as nat),
        ],
    }
}

/// Step 4: add the primary SATA-class storage controller.
pub open spec fn storage_controller_model(d: VmDescription) -> StepModel {
    StepModel {
        label: "add storage controller"@,
        args: seq![
            "storagectl"@,
            d.name@,
            "--name"@,
            "SATA Controller"@,
            "--add"@,
            "sata"@,
            "--controller"@,
            "IntelAhci"@,
        ],
    }
}

/// Step 5: attach the disk image to port 0, device 0 of the SATA controller.
pub open spec fn attach_disk_model(d: VmDescription) -> StepModel {
    StepModel {
        label: "attach disk"@,
        args: seq![
            "storageattach"@,
            d.name@,
            "--storagectl"@,
            "SATA Controller"@,
            "--port"@,
            "0"@,
            "--device"@,
            "0"@,
            "--type"@,
            "hdd"@,
            "--medium"@,
            disk_path_spec(d.name@),
        ],
    }
}

/// Optional step 6: add the secondary IDE-class controller for optical media.
pub open spec fn optical_controller_model(d: VmDescription) -> StepModel {
    StepModel {
        label: "add IDE controller"@,
        args: seq!["storagectl"@, d.name@, "--name"@, "IDE Controller"@, "--add"@, "ide"@],
    }
}

/// Optional step 7: attach the image at `iso` to port 0, device 0 of the IDE
/// controller as an optical-drive medium.
pub open spec fn attach_optical_model(d: VmDescription, iso: Seq<char>) -> StepModel {
    StepModel {
        label: "attach ISO"@,
        args: seq![
            "storageattach"@,
            d.name@,
            "--storagectl"@,
            "IDE Controller"@,
            "--port"@,
            "0"@,
            "--device"@,
            "0"@,
            "--type"@,
            "dvddrive"@,
            "--medium"@,
            iso,
        ],
    }
}

/// The whole plan for one description: the five mandatory steps, then the two
/// optical-media steps exactly when an ISO path is present.
pub open spec fn plan_spec(d: VmDescription) -> Seq<StepModel> {
    let base = seq![
        register_model(d),
        configure_model(d),
        create_disk_model(d),
        storage_controller_model(d),
        attach_disk_model(d),
    ];
    match d.iso_path {
        Option::None => base,
        Option::Some(iso) => base + seq![optical_controller_model(d), attach_optical_model(
            d,
            iso@,
        )],
    }
}

fn register_step(d: &VmDescription) -> (s: Step)
    ensures
        s@ == register_model(*d),
{
    let mut args: Vec<String> = Vec::new();
    args.push(String::from_str("createvm"));
    args.push(String::from_str("--name"));
    args.push(d.name.clone());
    args.push(String::from_str("--ostype"));
    args.push(d.os_type.clone());
    args.push(String::from_str("--register"));
    let s = Step { label: String::from_str("create VM"), args };
    proof {
        assert(s@ =~~= register_model(*d));
    }
    s
}

fn configure_step(d: &VmDescription) -> (s: Step)
    ensures
        s@ == configure_model(*d),
{
    let mut args: Vec<String> = Vec::new();
    args.push(String::from_str("modifyvm"));
    args.push(d.name.clone());
    args.push(String::from_str("--memory"));
    args.push(u32_decimal(d.memory_mb));
    args.push(String::from_str("--cpus"));
    args.push(u32_decimal(d.cpu_count));
    args.push(String::from_str("--nic1"));
    args.push(String::from_str("nat"));
    let s = Step { label: String::from_str("configure VM"), args };
    proof {
        assert(s@ =~~= configure_model(*d));
    }
    s
}

fn create_disk_step(d: &VmDescription) -> (s: Step)
    ensures
        s@ == create_disk_model(*d),
{
    let mut args: Vec<String> = Vec::new();
    args.push(String::from_str("createhd"));
    args.push(String::from_str("--filename"));
    args.push(disk_image_path(d.name.as_str()));
    args.push(String::from_str("--size"));
    args.push(u32_decimal(d.disk_size_mb));
    let s = Step { label: String::from_str("create disk"), args };
    proof {
        assert(s@ =~~= create_disk_model(*d));
    }
    s
}

fn storage_controller_step(d: &VmDescription) -> (s: Step)
    ensures
        s@ == storage_controller_model(*d),
{
    let mut args: Vec<String> = Vec::new();
    args.push(String::from_str("storagectl"));
    args.push(d.name.clone());
    args.push(String::from_str("--name"));
    args.push(String::from_str("SATA Controller"));
    args.push(String::from_str("--add"));
    args.push(String::from_str("sata"));
    args.push(String::from_str("--controller"));
    args.push(String::from_str("IntelAhci"));
    let s = Step { label: String::from_str("add storage controller"), args };
    proof {
        assert(s@ =~~= storage_controller_model(*d));
    }
    s
}

fn attach_disk_step(d: &VmDescription) -> (s: Step)
    ensures
        s@ == attach_disk_model(*d),
{
    let mut args: Vec<String> = Vec::new();
    args.push(String::from_str("storageattach"));
    args.push(d.name.clone());
    args.push(String::from_str("--storagectl"));
    args.push(String::from_str("SATA Controller"));
    args.push(String::from_str("--port"));
    args.push(String::from_str("0"));
    args.push(String::from_str("--device"));
    args.push(String::from_str("0"));
    args.push(String::from_str("--type"));
    args.push(String::from_str("hdd"));
    args.push(String::from_str("--medium"));
    args.push(disk_image_path(d.name.as_str()));
    let s = Step { label: String::from_str("attach disk"), args };
    proof {
        assert(s@ =~~= attach_disk_model(*d));
    }
    s
}

fn optical_controller_step(d: &VmDescription) -> (s: Step)
    ensures
        s@ == optical_controller_model(*d),
{
    let mut args: Vec<String> = Vec::new();
    args.push(String::from_str("storagectl"));
    args.push(d.name.clone());
    args.push(String::from_str("--name"));
    args.push(String::from_str("IDE Controller"));
    args.push(String::from_str("--add"));
    args.push(String::from_str("ide"));
    let s = Step { label: String::from_str("add IDE controller"), args };
    proof {
        assert(s@ =~~= optical_controller_model(*d));
    }
    s
}

fn attach_optical_step(d: &VmDescription, iso: &String) -> (s: Step)
    ensures
        s@ == attach_optical_model(*d, iso@),
{
    let mut args: Vec<String> = Vec::new();
    args.push(String::from_str("storageattach"));
    args.push(d.name.clone());
    args.push(String::from_str("--storagectl"));
    args.push(String::from_str("IDE Controller"));
    args.push(String::from_str("--port"));
    args.push(String::from_str("0"));
    args.push(String::from_str("--device"));
    args.push(String::from_str("0"));
    args.push(String::from_str("--type"));
    args.push(String::from_str("dvddrive"));
    args.push(String::from_str("--medium"));
    args.push(iso.clone());
    let s = Step { label: String::from_str("attach ISO"), args };
    proof {
        assert(s@ =~~= attach_optical_model(*d, iso@));
    }
    s
}

/// Lays out the whole ordered plan for `d`: exactly five steps without an ISO
/// path, exactly seven with one, in the fixed order, with the optical-attach
/// step referencing exactly the given ISO path.
pub fn plan_steps(d: &VmDescription) -> (r: Vec<Step>)
    ensures
        r.deep_view() == plan_spec(*d),
        d.iso_path is None ==> r@.len() == 5,
        d.iso_path is Some ==> r@.len() == 7,
        d.iso_path matches Some(p) ==> r.deep_view()[6].args[11] == p@,
{
    let mut r: Vec<Step> = Vec::new();
    r.push(register_step(d));
    r.push(configure_step(d));
    r.push(create_disk_step(d));
    r.push(storage_controller_step(d));
    r.push(attach_disk_step(d));
    match &d.iso_path {
        Option::None => {},
        Option::Some(iso) => {
            r.push(optical_controller_step(d));
            r.push(attach_optical_step(d, iso));
        },
    }
    proof {
        assert(r.deep_view() =~~= plan_spec(*d));
    }
    r
}

} // verus!
