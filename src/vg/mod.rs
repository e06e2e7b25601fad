mod vg_access_mode;
mod vg_attributes;

pub use vg_access_mode::VolumeGroupAccessMode;
pub use vg_attributes::{
    deserialize_vg_attrs, lemma_vg_attrs_first_failure, vg_attrs_of, vg_field, vg_flag_ok,
    VolumeGroupAttributes,
};

use vstd::prelude::*;

use crate::attributes::AttributeError;
use crate::command::{
    check_mutation, check_mutation_ok, is_malformed, mutation_error, push_all, push_str,
    report_options, report_options_of, texts, Invocation, ProcessOutput,
};
use crate::error::LVMError;
use crate::fields::{capacity_member, count_member, name_member, text_field, uuid_member};
use crate::lv::{
    all_lv_records, lv_create_args, lv_id, record_lv_id, LVCreateOptions, LogicalVolume,
};
use crate::pattern::{is_valid_name, is_valid_uuid};
use crate::report::{
    attribute_error, number_member, output_records, records_view, report_read, report_records,
    text_member, RecordView, ReportRecord,
};
use crate::text::{decimal, to_decimal};
use crate::{ResourceCapacity, ResourceName, ResourceUUID};

verus! {

/// A volume group, as LVM2 reports it.
#[derive(Clone, Debug)]
pub struct VolumeGroup {
    pub name: ResourceName,
    pub uuid: ResourceUUID,
    pub capacity_bytes: ResourceCapacity,
    pub lv_count: usize,
    pub pv_count: usize,
    pub snap_count: usize,
    pub space_free_bytes: usize,
    pub attributes: VolumeGroupAttributes,
}

/// What creating a volume group asks for.
#[derive(Clone, Debug)]
pub struct VGCreateOptions {
    /// The name of the volume group.
    pub name: ResourceName,
    /// Whether to enable clustered mode; not clustered where unset.
    pub is_clustered: Option<bool>,
    /// The largest number of logical volumes allowed; 0, no limit, where unset.
    pub max_logical_volumes: Option<usize>,
    /// The largest number of physical volumes allowed; 0, no limit, where unset.
    pub max_physical_volumes: Option<usize>,
}

/// Whether `rec` is a report record of a volume group with valid members.
pub open spec fn is_vg_record(rec: RecordView) -> bool {
    &&& text_member(rec, "vg_name"@) matches Some(n) && is_valid_name(n)
    &&& text_member(rec, "vg_uuid"@) matches Some(u) && is_valid_uuid(u)
    &&& number_member(rec, "vg_size"@) matches Some(c) && c % 512 == 0
    &&& number_member(rec, "lv_count"@) is Some
    &&& number_member(rec, "pv_count"@) is Some
    &&& number_member(rec, "snap_count"@) is Some
    &&& number_member(rec, "vg_free"@) is Some
    &&& text_member(rec, "vg_attr"@) matches Some(a) && vg_attrs_of(a) is Ok
}

/// Whether `vg` is the volume group that the record `rec` describes.
pub open spec fn is_vg_of(vg: &VolumeGroup, rec: RecordView) -> bool {
    &&& text_member(rec, "vg_name"@) == Some(vg.name@)
    &&& text_member(rec, "vg_uuid"@) == Some(vg.uuid@)
    &&& number_member(rec, "vg_size"@) == Some(vg.capacity_bytes@)
    &&& number_member(rec, "lv_count"@) == Some(vg.lv_count as nat)
    &&& number_member(rec, "pv_count"@) == Some(vg.pv_count as nat)
    &&& number_member(rec, "snap_count"@) == Some(vg.snap_count as nat)
    &&& number_member(rec, "vg_free"@) == Some(vg.space_free_bytes as nat)
    &&& text_member(rec, "vg_attr"@) matches Some(a) && vg_attrs_of(a) == Ok::<
        VolumeGroupAttributes,
        AttributeError,
    >(vg.attributes)
}

/// Whether `vgs` are the volume groups that `records` describe, in the same order.
pub open spec fn vgs_of(vgs: Seq<VolumeGroup>, records: Seq<RecordView>) -> bool {
    vgs.len() == records.len() && forall|i: int|
        0 <= i < records.len() ==> is_vg_of(&#[trigger] vgs[i], records[i])
}

/// Whether every record of `records` describes a volume group.
pub open spec fn all_vg_records(records: Seq<RecordView>) -> bool {
    forall|i: int| 0 <= i < records.len() ==> is_vg_record(#[trigger] records[i])
}

/// The limit that an unset option stands for.
pub open spec fn limit_or_zero(limit: Option<usize>) -> nat {
    match limit {
        Some(n) => n as nat,
        None => 0,
    }
}

/// The arguments of `vgcreate` for `opts` over `physical_devices`.
pub open spec fn vg_create_args(physical_devices: Seq<String>, opts: &VGCreateOptions) -> Seq<
    Seq<char>,
> {
    seq![
        "--clustered"@,
        if opts.is_clustered == Some(true) {
            "y"@
        } else {
            "n"@
        },
        "--maxlogicalvolumes"@,
        decimal(limit_or_zero(opts.max_logical_volumes)),
        "--maxphysicalvolumes"@,
        decimal(limit_or_zero(opts.max_physical_volumes)),
        opts.name@,
    ] + texts(physical_devices)
}

/// The arguments of the query that lists volume groups sorted by name, then `tail`.
pub open spec fn vg_query_args(tail: Seq<Seq<char>>) -> Seq<Seq<char>> {
    report_options("+vg_all"@) + tail
}

/// What a lookup of `resource` reads from the records `recs`: the last record, where
/// every record is valid and there is one; `NotFound` where there is none.
pub open spec fn one_vg_read(
    recs: Seq<RecordView>,
    resource: Seq<char>,
    r: Result<VolumeGroup, LVMError>,
) -> bool {
    &&& r is Ok <==> all_vg_records(recs) && recs.len() > 0
    &&& r matches Ok(x) ==> is_vg_of(&x, recs.last())
    &&& all_vg_records(recs) && recs.len() == 0 ==> (r matches Err(e)
        && e matches LVMError::NotFound { resource: name } && name@ == resource)
    &&& !all_vg_records(recs) ==> (r matches Err(e) && is_malformed(
        &e,
        "could not decode wrapped type as JSON"@,
    ))
}

impl VolumeGroup {
    /// Reads a volume group from one report record.
    pub fn from_record(rec: &ReportRecord) -> (r: Result<Self, LVMError>)
        ensures
            r is Ok <==> is_vg_record(rec@),
            r matches Ok(vg) ==> is_vg_of(&vg, rec@),
            r matches Err(e) ==> is_malformed(&e, "could not decode wrapped type as JSON"@),
    {
        let name = match name_member(rec, "vg_name") {
            Ok(v) => v,
            Err(e) => return Err(e),
        };
        let uuid = match uuid_member(rec, "vg_uuid") {
            Ok(v) => v,
            Err(e) => return Err(e),
        };
        let capacity_bytes = match capacity_member(rec, "vg_size") {
            Ok(v) => v,
            Err(e) => return Err(e),
        };
        let lv_count = match count_member(rec, "lv_count") {
            Ok(v) => v,
            Err(e) => return Err(e),
        };
        let pv_count = match count_member(rec, "pv_count") {
            Ok(v) => v,
            Err(e) => return Err(e),
        };
        let snap_count = match count_member(rec, "snap_count") {
            Ok(v) => v,
            Err(e) => return Err(e),
        };
        let space_free_bytes = match count_member(rec, "vg_free") {
            Ok(v) => v,
            Err(e) => return Err(e),
        };
        let attr = match text_field(rec, "vg_attr") {
            Ok(v) => v,
            Err(e) => return Err(e),
        };
        let attributes = match deserialize_vg_attrs(attr.as_str()) {
            Ok(v) => v,
            Err(e) => return Err(attribute_error("vg_attr", &e)),
        };
        Ok(
            VolumeGroup {
                name,
                uuid,
                capacity_bytes,
                lv_count,
                pv_count,
                snap_count,
                space_free_bytes,
                attributes,
            },
        )
    }

    /// Reads every record of a report as a volume group, in order; one record that is not
    /// a volume group fails the whole report.
    pub fn from_records(records: &Vec<ReportRecord>) -> (r: Result<Vec<Self>, LVMError>)
        ensures
            r is Ok <==> all_vg_records(records_view(records@)),
            r matches Ok(vgs) ==> vgs_of(vgs@, records_view(records@)),
            r matches Err(e) ==> is_malformed(&e, "could not decode wrapped type as JSON"@),
    {
        let mut vgs: Vec<Self> = Vec::new();
        let n = records.len();
        for i in 0..n
            invariant
                n == records@.len(),
                vgs@.len() == i,
                forall|j: int| 0 <= j < i ==> is_vg_record(#[trigger] records@[j]@),
                forall|j: int| 0 <= j < i ==> is_vg_of(&#[trigger] vgs@[j], records@[j]@),
        {
            assert(records_view(records@)[i as int] == records@[i as int]@);
            match Self::from_record(&records[i]) {
                Ok(vg) => vgs.push(vg),
                Err(e) => return Err(e),
            }
        }
        Ok(vgs)
    }

    /// Reads the one volume group that a lookup of `resource` asked for: the last record of
    /// the report, or `NotFound` where the report holds none.
    pub fn one_from_records(records: &Vec<ReportRecord>, resource: &str) -> (r: Result<
        Self,
        LVMError,
    >)
        ensures
            r is Ok <==> all_vg_records(records_view(records@)) && records@.len() > 0,
            r matches Ok(vg) ==> is_vg_of(&vg, records@.last()@),
            all_vg_records(records_view(records@)) && records@.len() == 0 ==> (r matches Err(e)
                && e matches LVMError::NotFound { resource: x } && x@ == resource@),
            !all_vg_records(records_view(records@)) ==> (r matches Err(e) && is_malformed(
                &e,
                "could not decode wrapped type as JSON"@,
            )),
    {
        let mut vgs = match Self::from_records(records) {
            Ok(vgs) => vgs,
            Err(e) => return Err(e),
        };
        match vgs.pop() {
            Some(vg) => Ok(vg),
            None => Err(LVMError::NotFound { resource: String::from_str(resource) }),
        }
    }

    /// Reads the volume groups of the report that the query `inv` printed.
    pub fn from_report(inv: &Invocation, out: &ProcessOutput) -> (r: Result<Vec<Self>, LVMError>)
        ensures
            report_read(inv, out, "vg"@, r),
            r is Ok ==> output_records(out, "vg"@) is Some,
            output_records(out, "vg"@) matches Some(recs) ==> (r is Ok <==> all_vg_records(recs))
                && (r matches Ok(vgs) ==> vgs_of(vgs@, recs)) && (!all_vg_records(recs) ==> (
            r matches Err(e) && is_malformed(&e, "could not decode wrapped type as JSON"@))),
    {
        match report_records(inv, "vg", out) {
            Ok(records) => Self::from_records(&records),
            Err(e) => Err(e),
        }
    }

    /// Reads the one volume group that the lookup `inv` of `resource` asked for.
    pub fn one_from_report(inv: &Invocation, resource: &str, out: &ProcessOutput) -> (r: Result<
        Self,
        LVMError,
    >)
        ensures
            report_read(inv, out, "vg"@, r),
            r is Ok ==> output_records(out, "vg"@) is Some,
            output_records(out, "vg"@) matches Some(recs) ==> one_vg_read(recs, resource@, r),
    {
        match report_records(inv, "vg", out) {
            Ok(records) => Self::one_from_records(&records, resource),
            Err(e) => Err(e),
        }
    }

    /// The command that creates a volume group over `physical_devices`.
    pub fn create(physical_devices: &Vec<String>, opts: &VGCreateOptions) -> (r: Invocation)
        ensures
            r.command@ == "vgcreate"@,
            texts(r.args@) == vg_create_args(physical_devices@, opts),
    {
        let mut args: Vec<String> = Vec::new();
        push_str(&mut args, "--clustered");
        let clustered = match opts.is_clustered {
            Some(true) => "y",
            _ => "n",
        };
        push_str(&mut args, clustered);
        push_str(&mut args, "--maxlogicalvolumes");
        let max_lv = match opts.max_logical_volumes {
            Some(n) => n,
            None => 0,
        };
        push_str(&mut args, to_decimal(max_lv).as_str());
        push_str(&mut args, "--maxphysicalvolumes");
        let max_pv = match opts.max_physical_volumes {
            Some(n) => n,
            None => 0,
        };
        push_str(&mut args, to_decimal(max_pv).as_str());
        push_str(&mut args, opts.name.as_str());
        push_all(&mut args, physical_devices);
        proof {
            assert(texts(args@) =~= vg_create_args(physical_devices@, opts));
        }
        Invocation { command: String::from_str("vgcreate"), args }
    }

    /// Decides what follows `vgcreate`: where it succeeded, the query that fetches the new
    /// volume group.
    pub fn create_output(opts: &VGCreateOptions, inv: &Invocation, out: &ProcessOutput) -> (r:
        Result<Invocation, LVMError>)
        ensures
            r is Ok <==> check_mutation_ok(out),
            r matches Ok(next) ==> next.command@ == "vgs"@ && texts(next.args@) == vg_query_args(
                seq!["--sort"@, "vg_name"@, opts.name@],
            ),
            r matches Err(e) ==> mutation_error(inv, out, &e),
    {
        match check_mutation(inv, out) {
            Ok(()) => Ok(Self::from_id(&opts.name)),
            Err(e) => Err(e),
        }
    }

    /// The query that fetches the volume group `volume_group`.
    pub fn from_id(volume_group: &ResourceName) -> (r: Invocation)
        ensures
            r.command@ == "vgs"@,
            texts(r.args@) == vg_query_args(seq!["--sort"@, "vg_name"@, volume_group@]),
    {
        let mut args = report_options_of("+vg_all");
        push_str(&mut args, "--sort");
        push_str(&mut args, "vg_name");
        push_str(&mut args, volume_group.as_str());
        proof {
            assert(texts(args@) =~= vg_query_args(seq!["--sort"@, "vg_name"@, volume_group@]));
        }
        Invocation { command: String::from_str("vgs"), args }
    }

    /// The query that lists every volume group, sorted by name.
    pub fn list() -> (r: Invocation)
        ensures
            r.command@ == "vgs"@,
            texts(r.args@) == vg_query_args(seq!["--sort"@, "vg_name"@]),
    {
        let mut args = report_options_of("+vg_all");
        push_str(&mut args, "--sort");
        push_str(&mut args, "vg_name");
        proof {
            assert(texts(args@) =~= vg_query_args(seq!["--sort"@, "vg_name"@]));
        }
        Invocation { command: String::from_str("vgs"), args }
    }

    /// The query that fetches the volume group whose UUID is `uuid`.
    pub fn from_uuid(uuid: &ResourceUUID) -> (r: Invocation)
        ensures
            r.command@ == "vgs"@,
            texts(r.args@) == vg_query_args(seq!["--select"@, "uuid="@ + uuid@]),
    {
        let mut args = report_options_of("+vg_all");
        push_str(&mut args, "--select");
        let mut selector = String::from_str("uuid=");
        selector.append(uuid.as_str());
        push_str(&mut args, selector.as_str());
        proof {
            assert(texts(args@) =~= vg_query_args(seq!["--select"@, "uuid="@ + uuid@]));
        }
        Invocation { command: String::from_str("vgs"), args }
    }

    /// The query that lists the logical volumes of this volume group.
    pub fn list_lvs(&self) -> (r: Invocation)
        ensures
            r.command@ == "lvs"@,
            texts(r.args@) == report_options("+lv_all"@) + seq![
                "--sort"@,
                "vg_name,lv_name"@,
                self.name@,
            ],
    {
        LogicalVolume::list_for_vg(&self.name)
    }

    /// The command that creates a logical volume in this volume group.
    pub fn add_lv(&self, opts: &LVCreateOptions) -> (r: Invocation)
        ensures
            r.command@ == "lvcreate"@,
            texts(r.args@) == lv_create_args(self.name@, opts),
    {
        LogicalVolume::create(&self.name, opts)
    }

    /// The query that looks up the logical volume `name` of this volume group, the first
    /// step of removing it.
    pub fn remove_lv(&self, name: &ResourceName) -> (r: Invocation)
        ensures
            r.command@ == "lvs"@,
            texts(r.args@) == report_options("+lv_all"@) + seq![lv_id(self.name@, name@)],
    {
        LogicalVolume::from_id(&self.name, name)
    }

    /// Decides what follows the lookup of [VolumeGroup::remove_lv]: where it found the
    /// volume, the command that removes it.
    pub fn remove_lv_output(
        &self,
        name: &ResourceName,
        inv: &Invocation,
        out: &ProcessOutput,
    ) -> (r: Result<Invocation, LVMError>)
        ensures
            report_read(inv, out, "lv"@, r),
            r is Ok ==> output_records(out, "lv"@) is Some,
            output_records(out, "lv"@) matches Some(recs) ==> {
                &&& r is Ok <==> all_lv_records(recs) && recs.len() > 0
                &&& r matches Ok(next) ==> next.command@ == "lvremove"@ && texts(next.args@)
                    == seq!["--force"@, record_lv_id(recs.last())]
                &&& all_lv_records(recs) && recs.len() == 0 ==> (r matches Err(e)
                    && e matches LVMError::NotFound { resource } && resource@ == lv_id(
                    self.name@,
                    name@,
                ))
            },
    {
        let id = LogicalVolume::from_id_text(&self.name, name);
        match LogicalVolume::one_from_report(inv, id.as_str(), out) {
            Ok(lv) => Ok(lv.delete()),
            Err(e) => Err(e),
        }
    }
}

} // verus!
