//! Resource template builder: the pure function from a cleaner instance to
//! the desired state of its three children (service account, role binding,
//! schedule object).
//!
//! Every builder is total over valid identities and is pinned to an exact
//! ghost descriptor, so two passes over an unchanged instance produce
//! identical desired state.

use vstd::prelude::*;
use vstd::string::StringExecFns;
use crate::model::{
    CleanerSpec, CleanerSpecView, InstanceIdentity, InstanceIdentityView, OwnerRef, OwnerRefView,
};

verus! {

/// The character for one decimal digit.
pub open spec fn digit_char(d: int) -> char {
    if d == 0 {
        '0'
    } else if d == 1 {
        '1'
    } else if d == 2 {
        '2'
    } else if d == 3 {
        '3'
    } else if d == 4 {
        '4'
    } else if d == 5 {
        '5'
    } else if d == 6 {
        '6'
    } else if d == 7 {
        '7'
    } else if d == 8 {
        '8'
    } else {
        '9'
    }
}

/// Decimal representation of a nonnegative integer, most significant digit
/// first, with no leading zeros (a lone zero for 0).
pub open spec fn dec_rep(n: int) -> Seq<char>
    recommends
        n >= 0,
    decreases n,
{
    if n < 10 {
        seq![digit_char(n)]
    } else {
        dec_rep(n / 10).push(digit_char(n % 10))
    }
}

/// Decimal representation of a signed day count: a leading minus sign for
/// negatives, then the digits.
pub open spec fn i8_dec_str(n: int) -> Seq<char> {
    if n < 0 {
        seq!['-'] + dec_rep(-n)
    } else {
        dec_rep(n)
    }
}

/// The single-character string for one decimal digit.
fn digit_str(d: u32) -> (r: &'static str)
    requires
        d < 10,
    ensures
        r@ == seq![digit_char(d as int)],
{
    proof {
        reveal_strlit("0");
        reveal_strlit("1");
        reveal_strlit("2");
        reveal_strlit("3");
        reveal_strlit("4");
        reveal_strlit("5");
        reveal_strlit("6");
        reveal_strlit("7");
        reveal_strlit("8");
        reveal_strlit("9");
        assert("0"@ =~= seq!['0']);
        assert("1"@ =~= seq!['1']);
        assert("2"@ =~= seq!['2']);
        assert("3"@ =~= seq!['3']);
        assert("4"@ =~= seq!['4']);
        assert("5"@ =~= seq!['5']);
        assert("6"@ =~= seq!['6']);
        assert("7"@ =~= seq!['7']);
        assert("8"@ =~= seq!['8']);
        assert("9"@ =~= seq!['9']);
    }
    match d {
        0 => "0",
        1 => "1",
        2 => "2",
        3 => "3",
        4 => "4",
        5 => "5",
        6 => "6",
        7 => "7",
        8 => "8",
        _ => "9",
    }
}

/// Appends the decimal representation of `n` to `out`.
fn push_dec(n: u32, out: &mut String)
    ensures
        final(out)@ == old(out)@ + dec_rep(n as int),
    decreases n,
{
    if n < 10 {
        out.append(digit_str(n));
        assert(final(out)@ =~= old(out)@ + dec_rep(n as int));
    } else {
        assert(n / 10 < n);
        push_dec(n / 10, out);
        out.append(digit_str(n % 10));
        assert(final(out)@ =~= old(out)@ + dec_rep(n as int));
    }
}

/// Renders a signed day count in decimal, exactly as the generated
/// command line carries it.
pub fn i8_to_dec_string(n: i8) -> (s: String)
    ensures
        s@ == i8_dec_str(n as int),
{
    let mut out = String::new();
    if n < 0 {
        out.append("-");
        proof {
            reveal_strlit("-");
            assert("-"@ =~= seq!['-']);
        }
        let mag: u32 = (-(n as i32)) as u32;
        push_dec(mag, &mut out);
        assert(out@ =~= i8_dec_str(n as int));
    } else {
        push_dec(n as u32, &mut out);
        assert(out@ =~= i8_dec_str(n as int));
    }
    out
}

/// The command-line arguments the generated schedule object hands to the
/// sweep process, in order: `--actually-delete`, the instance's namespace,
/// the optional label and field selectors, and the age threshold. Absent
/// selectors are omitted entirely rather than passed as empty strings.
pub open spec fn sweep_args_spec(namespace: Seq<char>, s: CleanerSpecView) -> Seq<Seq<char>> {
    seq!["--actually-delete"@, "-n"@, namespace] + (match s.label_selector {
        Option::Some(l) => seq!["-l"@, l],
        Option::None => Seq::empty(),
    }) + (match s.field_selector {
        Option::Some(f) => seq!["-f"@, f],
        Option::None => Seq::empty(),
    }) + seq!["--older-than"@, i8_dec_str(s.delete_older_than)]
}

/// Builds the sweep process's argument vector for one instance.
pub fn build_sweep_args(namespace: &String, spec: &CleanerSpec) -> (args: Vec<String>)
    ensures
        args.deep_view() == sweep_args_spec(namespace@, spec@),
{
    let mut args: Vec<String> = Vec::new();
    args.push("--actually-delete".to_owned());
    args.push("-n".to_owned());
    args.push(namespace.clone());
    if let Option::Some(l) = &spec.label_selector {
        args.push("-l".to_owned());
        args.push(l.clone());
    }
    if let Option::Some(f) = &spec.field_selector {
        args.push("-f".to_owned());
        args.push(f.clone());
    }
    args.push("--older-than".to_owned());
    args.push(i8_to_dec_string(spec.delete_older_than));
    assert(args.deep_view() =~= sweep_args_spec(namespace@, spec@));
    args
}

/// The owner reference every generated child carries: a controller back-link
/// to the cleaner instance that produced it.
pub open spec fn owner_ref_spec(id: InstanceIdentityView) -> OwnerRefView {
    OwnerRefView {
        api_version: "shopvac.io/v1"@,
        kind: "PodCleaner"@,
        name: id.name,
        uid: id.uid,
        controller: true,
    }
}

/// Builds the owner reference pointing back at the instance.
pub fn build_owner_ref(id: &InstanceIdentity) -> (r: OwnerRef)
    ensures
        r@ == owner_ref_spec(id@),
{
    OwnerRef {
        api_version: "shopvac.io/v1".to_owned(),
        kind: "PodCleaner".to_owned(),
        name: id.name.clone(),
        uid: id.uid.clone(),
        controller: true,
    }
}

/// Desired state of the service identity the sweep jobs run under.
#[derive(Debug)]
pub struct ServiceAccountDesc {
    pub name: String,
    pub namespace: String,
    pub owners: Vec<OwnerRef>,
}

/// Ghost view of `ServiceAccountDesc`.
pub ghost struct ServiceAccountView {
    pub name: Seq<char>,
    pub namespace: Seq<char>,
    pub owners: Seq<OwnerRefView>,
}

impl View for ServiceAccountDesc {
    type V = ServiceAccountView;

    open spec fn view(&self) -> ServiceAccountView {
        ServiceAccountView {
            name: self.name@,
            namespace: self.namespace@,
            owners: self.owners@.map_values(|o: OwnerRef| o@),
        }
    }
}

/// The service account descriptor an instance gives rise to.
pub open spec fn desired_service_account(id: InstanceIdentityView) -> ServiceAccountView {
    ServiceAccountView {
        name: "shopvac"@,
        namespace: id.namespace,
        owners: seq![owner_ref_spec(id)],
    }
}

/// Builds the service account descriptor for one instance.
pub fn build_service_account(id: &InstanceIdentity) -> (r: ServiceAccountDesc)
    ensures
        r@ == desired_service_account(id@),
{
    let r = ServiceAccountDesc {
        name: "shopvac".to_owned(),
        namespace: id.namespace.clone(),
        owners: vec![build_owner_ref(id)],
    };
    assert(r@.owners =~= seq![owner_ref_spec(id@)]);
    r
}

/// Desired state of the role binding that grants the service account the
/// pre-existing pod-deletion role.
#[derive(Debug)]
pub struct RoleBindingDesc {
    pub name: String,
    pub namespace: String,
    pub owners: Vec<OwnerRef>,
    pub role_api_group: String,
    pub role_kind: String,
    pub role_name: String,
    pub subject_kind: String,
    pub subject_name: String,
}

/// Ghost view of `RoleBindingDesc`.
pub ghost struct RoleBindingView {
    pub name: Seq<char>,
    pub namespace: Seq<char>,
    pub owners: Seq<OwnerRefView>,
    pub role_api_group: Seq<char>,
    pub role_kind: Seq<char>,
    pub role_name: Seq<char>,
    pub subject_kind: Seq<char>,
    pub subject_name: Seq<char>,
}

impl View for RoleBindingDesc {
    type V = RoleBindingView;

    open spec fn view(&self) -> RoleBindingView {
        RoleBindingView {
            name: self.name@,
            namespace: self.namespace@,
            owners: self.owners@.map_values(|o: OwnerRef| o@),
            role_api_group: self.role_api_group@,
            role_kind: self.role_kind@,
            role_name: self.role_name@,
            subject_kind: self.subject_kind@,
            subject_name: self.subject_name@,
        }
    }
}

/// The role binding descriptor an instance gives rise to.
pub open spec fn desired_role_binding(id: InstanceIdentityView) -> RoleBindingView {
    RoleBindingView {
        name: "shopvac-delete-rb"@,
        namespace: id.namespace,
        owners: seq![owner_ref_spec(id)],
        role_api_group: "rbac.authorization.k8s.io"@,
        role_kind: "Role"@,
        role_name: "shopvac-pod-deletion-role"@,
        subject_kind: "ServiceAccount"@,
        subject_name: "shopvac"@,
    }
}

/// Builds the role binding descriptor for one instance.
pub fn build_role_binding(id: &InstanceIdentity) -> (r: RoleBindingDesc)
    ensures
        r@ == desired_role_binding(id@),
{
    let r = RoleBindingDesc {
        name: "shopvac-delete-rb".to_owned(),
        namespace: id.namespace.clone(),
        owners: vec![build_owner_ref(id)],
        role_api_group: "rbac.authorization.k8s.io".to_owned(),
        role_kind: "Role".to_owned(),
        role_name: "shopvac-pod-deletion-role".to_owned(),
        subject_kind: "ServiceAccount".to_owned(),
        subject_name: "shopvac".to_owned(),
    };
    assert(r@.owners =~= seq![owner_ref_spec(id@)]);
    r
}

/// Desired state of the schedule object that periodically launches the sweep
/// process.
#[derive(Debug)]
pub struct CronJobDesc {
    pub name: String,
    pub namespace: String,
    pub owners: Vec<OwnerRef>,
    pub schedule: String,
    pub service_account: String,
    pub restart_policy: String,
    pub container_name: String,
    pub image: String,
    pub args: Vec<String>,
}

/// Ghost view of `CronJobDesc`.
pub ghost struct CronJobView {
    pub name: Seq<char>,
    pub namespace: Seq<char>,
    pub owners: Seq<OwnerRefView>,
    pub schedule: Seq<char>,
    pub service_account: Seq<char>,
    pub restart_policy: Seq<char>,
    pub container_name: Seq<char>,
    pub image: Seq<char>,
    pub args: Seq<Seq<char>>,
}

impl View for CronJobDesc {
    type V = CronJobView;

    open spec fn view(&self) -> CronJobView {
        CronJobView {
            name: self.name@,
            namespace: self.namespace@,
            owners: self.owners@.map_values(|o: OwnerRef| o@),
            schedule: self.schedule@,
            service_account: self.service_account@,
            restart_policy: self.restart_policy@,
            container_name: self.container_name@,
            image: self.image@,
            args: self.args.deep_view(),
        }
    }
}

/// The schedule object descriptor an instance gives rise to: named
/// `<instance-name>-clean-job` and running the sweep with the instance's
/// generated arguments.
pub open spec fn desired_cron_job(id: InstanceIdentityView, s: CleanerSpecView) -> CronJobView {
    CronJobView {
        name: id.name + "-clean-job"@,
        namespace: id.namespace,
        owners: seq![owner_ref_spec(id)],
        schedule: s.schedule,
        service_account: "shopvac"@,
        restart_policy: "Never"@,
        container_name: "pod-delete"@,
        image: "quay.io/wseaton/shopvac:latest"@,
        args: sweep_args_spec(id.namespace, s),
    }
}

/// Builds the schedule object descriptor for one instance.
pub fn build_cron_job(id: &InstanceIdentity, spec: &CleanerSpec) -> (r: CronJobDesc)
    ensures
        r@ == desired_cron_job(id@, spec@),
{
    let r = CronJobDesc {
        name: id.name.clone().concat("-clean-job"),
        namespace: id.namespace.clone(),
        owners: vec![build_owner_ref(id)],
        schedule: spec.schedule.clone(),
        service_account: "shopvac".to_owned(),
        restart_policy: "Never".to_owned(),
        container_name: "pod-delete".to_owned(),
        image: "quay.io/wseaton/shopvac:latest".to_owned(),
        args: build_sweep_args(&id.namespace, spec),
    };
    assert(r@.owners =~= seq![owner_ref_spec(id@)]);
    r
}

} // verus!
