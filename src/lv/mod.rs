mod lv_attributes;
mod lv_state;
mod lv_status;
mod lv_volume_type;

pub use lv_attributes::{
    deserialize_lv_attrs, lemma_lv_attrs_first_failure, lv_attrs_of, lv_field, lv_flag_ok,
    LogicalVolumeAttributes,
};
pub use lv_state::LVState;
pub use lv_status::LVStatus;
pub use lv_volume_type::LVVolumeType;

use vstd::prelude::*;

use crate::attributes::AttributeError;
use crate::command::{
    check_mutation, check_mutation_ok, is_malformed, mutation_error, push_str, report_options,
    report_options_of, texts, Invocation, ProcessOutput,
};
use crate::error::LVMError;
use crate::fields::{capacity_member, name_member, text_field, uuid_member};
use crate::pattern::{is_valid_name, is_valid_uuid};
use crate::report::{
    attribute_error, number_member, output_records, records_view, report_read, report_records,
    text_member, RecordView, ReportRecord,
};
use crate::text::{decimal, push_decimal};
use crate::{ResourceCapacity, ResourceName, ResourceUUID};

verus! {

/// A logical volume, as LVM2 reports it.
#[derive(Clone, Debug)]
pub struct LogicalVolume {
    pub name: ResourceName,
    pub capacity_bytes: ResourceCapacity,
    pub volume_group_name: ResourceName,
    pub attributes: LogicalVolumeAttributes,
    pub path: String,
    pub uuid: ResourceUUID,
}

/// What creating a logical volume asks for.
#[derive(Clone, Debug)]
pub struct LVCreateOptions {
    /// Whether the logical volume should become active after creation.
    pub activate: bool,
    /// The capacity, in bytes, required.
    pub capacity_bytes: ResourceCapacity,
    /// The name of the new volume.
    pub name: ResourceName,
    /// Extra tags to add.
    pub tags: Vec<String>,
}

/// Whether `rec` is a report record of a logical volume with valid members.
pub open spec fn is_lv_record(rec: RecordView) -> bool {
    &&& text_member(rec, "lv_name"@) matches Some(n) && is_valid_name(n)
    &&& number_member(rec, "lv_size"@) matches Some(c) && c % 512 == 0
    &&& text_member(rec, "vg_name"@) matches Some(n) && is_valid_name(n)
    &&& text_member(rec, "lv_attr"@) matches Some(a) && lv_attrs_of(a) is Ok
    &&& text_member(rec, "lv_path"@) is Some
    &&& text_member(rec, "lv_uuid"@) matches Some(u) && is_valid_uuid(u)
}

/// Whether `lv` is the logical volume that the record `rec` describes.
pub open spec fn is_lv_of(lv: &LogicalVolume, rec: RecordView) -> bool {
    &&& text_member(rec, "lv_name"@) == Some(lv.name@)
    &&& number_member(rec, "lv_size"@) == Some(lv.capacity_bytes@)
    &&& text_member(rec, "vg_name"@) == Some(lv.volume_group_name@)
    &&& text_member(rec, "lv_attr"@) matches Some(a) && lv_attrs_of(a) == Ok::<
        LogicalVolumeAttributes,
        AttributeError,
    >(lv.attributes)
    &&& text_member(rec, "lv_path"@) == Some(lv.path@)
    &&& text_member(rec, "lv_uuid"@) == Some(lv.uuid@)
}

/// The identifier `<volume group>/<name>` of a logical volume.
pub open spec fn lv_id(volume_group: Seq<char>, name: Seq<char>) -> Seq<char> {
    volume_group + "/"@ + name
}

/// The identifier of the logical volume that the record `rec` describes.
pub open spec fn record_lv_id(rec: RecordView) -> Seq<char> {
    match (text_member(rec, "vg_name"@), text_member(rec, "lv_name"@)) {
        (Some(vg), Some(name)) => lv_id(vg, name),
        _ => Seq::empty(),
    }
}

/// The arguments that add each tag: `--addtag <tag>` per tag, in order.
pub open spec fn tag_args(tags: Seq<Seq<char>>) -> Seq<Seq<char>>
    decreases tags.len(),
{
    if tags.len() == 0 {
        Seq::empty()
    } else {
        tag_args(tags.drop_last()) + seq!["--addtag"@, tags.last()]
    }
}

/// The arguments of `lvcreate` for `opts` in `volume_group`.
pub open spec fn lv_create_args(volume_group: Seq<char>, opts: &LVCreateOptions) -> Seq<
    Seq<char>,
> {
    seq![
        "--activate"@,
        if opts.activate {
            "ay"@
        } else {
            "an"@
        },
        "--name"@,
        opts.name@,
        "--size"@,
        decimal(opts.capacity_bytes@) + "B"@,
    ] + tag_args(texts(opts.tags@)) + seq![volume_group]
}

/// Whether `lvs` are the logical volumes that `records` describe, in the same order.
pub open spec fn lvs_of(lvs: Seq<LogicalVolume>, records: Seq<RecordView>) -> bool {
    lvs.len() == records.len() && forall|i: int|
        0 <= i < records.len() ==> is_lv_of(&#[trigger] lvs[i], records[i])
}

/// Whether every record of `records` describes a logical volume.
pub open spec fn all_lv_records(records: Seq<RecordView>) -> bool {
    forall|i: int| 0 <= i < records.len() ==> is_lv_record(#[trigger] records[i])
}

/// What a lookup of `resource` reads from the records `recs`: the last record, where
/// every record is valid and there is one; `NotFound` where there is none.
pub open spec fn one_lv_read(
    recs: Seq<RecordView>,
    resource: Seq<char>,
    r: Result<LogicalVolume, LVMError>,
) -> bool {
    &&& r is Ok <==> all_lv_records(recs) && recs.len() > 0
    &&& r matches Ok(x) ==> is_lv_of(&x, recs.last())
    &&& all_lv_records(recs) && recs.len() == 0 ==> (r matches Err(e)
        && e matches LVMError::NotFound { resource: name } && name@ == resource)
    &&& !all_lv_records(recs) ==> (r matches Err(e) && is_malformed(
        &e,
        "could not decode wrapped type as JSON"@,
    ))
}

impl LogicalVolume {
    /// Reads a logical volume from one report record.
    pub fn from_record(rec: &ReportRecord) -> (r: Result<Self, LVMError>)
        ensures
            r is Ok <==> is_lv_record(rec@),
            r matches Ok(lv) ==> is_lv_of(&lv, rec@),
            r matches Err(e) ==> is_malformed(&e, "could not decode wrapped type as JSON"@),
    {
        let name = match name_member(rec, "lv_name") {
            Ok(v) => v,
            Err(e) => return Err(e),
        };
        let capacity_bytes = match capacity_member(rec, "lv_size") {
            Ok(v) => v,
            Err(e) => return Err(e),
        };
        let volume_group_name = match name_member(rec, "vg_name") {
            Ok(v) => v,
            Err(e) => return Err(e),
        };
        let attr = match text_field(rec, "lv_attr") {
            Ok(v) => v,
            Err(e) => return Err(e),
        };
        let attributes = match deserialize_lv_attrs(attr.as_str()) {
            Ok(v) => v,
            Err(e) => return Err(attribute_error("lv_attr", &e)),
        };
        let path = match text_field(rec, "lv_path") {
            Ok(v) => v,
            Err(e) => return Err(e),
        };
        let uuid = match uuid_member(rec, "lv_uuid") {
            Ok(v) => v,
            Err(e) => return Err(e),
        };
        Ok(LogicalVolume { name, capacity_bytes, volume_group_name, attributes, path, uuid })
    }

    /// Reads every record of a report as a logical volume, in order; one record that is not
    /// a logical volume fails the whole report.
    pub fn from_records(records: &Vec<ReportRecord>) -> (r: Result<Vec<Self>, LVMError>)
        ensures
            r is Ok <==> all_lv_records(records_view(records@)),
            r matches Ok(lvs) ==> lvs_of(lvs@, records_view(records@)),
            r matches Err(e) ==> is_malformed(&e, "could not decode wrapped type as JSON"@),
    {
        let mut lvs: Vec<Self> = Vec::new();
        let n = records.len();
        for i in 0..n
            invariant
                n == records@.len(),
                lvs@.len() == i,
                forall|j: int| 0 <= j < i ==> is_lv_record(#[trigger] records@[j]@),
                forall|j: int| 0 <= j < i ==> is_lv_of(&#[trigger] lvs@[j], records@[j]@),
        {
            assert(records_view(records@)[i as int] == records@[i as int]@);
            match Self::from_record(&records[i]) {
                Ok(lv) => lvs.push(lv),
                Err(e) => return Err(e),
            }
        }
        Ok(lvs)
    }

    /// Reads the one logical volume that a lookup of `resource` asked for: the last record
    /// of the report, or `NotFound` where the report holds none.
    pub fn one_from_records(records: &Vec<ReportRecord>, resource: &str) -> (r: Result<
        Self,
        LVMError,
    >)
        ensures
            r is Ok <==> all_lv_records(records_view(records@)) && records@.len() > 0,
            r matches Ok(lv) ==> is_lv_of(&lv, records@.last()@),
            all_lv_records(records_view(records@)) && records@.len() == 0 ==> (r matches Err(e)
                && e matches LVMError::NotFound { resource: x } && x@ == resource@),
            !all_lv_records(records_view(records@)) ==> (r matches Err(e) && is_malformed(
                &e,
                "could not decode wrapped type as JSON"@,
            )),
    {
        let mut lvs = match Self::from_records(records) {
            Ok(lvs) => lvs,
            Err(e) => return Err(e),
        };
        match lvs.pop() {
            Some(lv) => Ok(lv),
            None => Err(LVMError::NotFound { resource: String::from_str(resource) }),
        }
    }

    /// Reads the logical volumes of the report that the query `inv` printed.
    pub fn from_report(inv: &Invocation, out: &ProcessOutput) -> (r: Result<Vec<Self>, LVMError>)
        ensures
            report_read(inv, out, "lv"@, r),
            r is Ok ==> output_records(out, "lv"@) is Some,
            output_records(out, "lv"@) matches Some(recs) ==> (r is Ok <==> all_lv_records(recs))
                && (r matches Ok(lvs) ==> lvs_of(lvs@, recs)) && (!all_lv_records(recs) ==> (
            r matches Err(e) && is_malformed(&e, "could not decode wrapped type as JSON"@))),
    {
        match report_records(inv, "lv", out) {
            Ok(records) => Self::from_records(&records),
            Err(e) => Err(e),
        }
    }

    /// Reads the one logical volume that the lookup `inv` of `resource` asked for.
    pub fn one_from_report(inv: &Invocation, resource: &str, out: &ProcessOutput) -> (r: Result<
        Self,
        LVMError,
    >)
        ensures
            report_read(inv, out, "lv"@, r),
            r is Ok ==> output_records(out, "lv"@) is Some,
            output_records(out, "lv"@) matches Some(recs) ==> one_lv_read(recs, resource@, r),
    {
        match report_records(inv, "lv", out) {
            Ok(records) => Self::one_from_records(&records, resource),
            Err(e) => Err(e),
        }
    }

    /// The query that fetches the logical volume `name` of `volume_group`.
    pub fn from_id(volume_group: &ResourceName, name: &ResourceName) -> (r: Invocation)
        ensures
            r.command@ == "lvs"@,
            texts(r.args@) == report_options("+lv_all"@) + seq![lv_id(volume_group@, name@)],
    {
        let mut args = report_options_of("+lv_all");
        let id = Self::from_id_text(volume_group, name);
        push_str(&mut args, id.as_str());
        Invocation { command: String::from_str("lvs"), args }
    }

    /// The query that lists the logical volumes of every volume group.
    pub fn list() -> (r: Invocation)
        ensures
            r.command@ == "lvs"@,
            texts(r.args@) == report_options("+lv_all"@) + seq![
                "--sort"@,
                "vg_name,lv_name"@,
                Seq::<char>::empty(),
            ],
    {
        LogicalVolume::list_for_vg(&ResourceName::empty())
    }

    /// The query that lists the logical volumes of `volume_group`, sorted by volume group
    /// and then by name.
    pub fn list_for_vg(volume_group: &ResourceName) -> (r: Invocation)
        ensures
            r.command@ == "lvs"@,
            texts(r.args@) == report_options("+lv_all"@) + seq![
                "--sort"@,
                "vg_name,lv_name"@,
                volume_group@,
            ],
    {
        let mut args = report_options_of("+lv_all");
        push_str(&mut args, "--sort");
        push_str(&mut args, "vg_name,lv_name");
        push_str(&mut args, volume_group.as_str());
        proof {
            assert(texts(args@) =~= report_options("+lv_all"@) + seq![
                "--sort"@,
                "vg_name,lv_name"@,
                volume_group@,
            ]);
        }
        Invocation { command: String::from_str("lvs"), args }
    }

    /// The query that fetches the logical volume whose UUID is `uuid`.
    pub fn from_uuid(uuid: &ResourceUUID) -> (r: Invocation)
        ensures
            r.command@ == "lvs"@,
            texts(r.args@) == report_options("+lv_all"@) + seq![
                "--select"@,
                "uuid="@ + uuid@,
            ],
    {
        let mut args = report_options_of("+lv_all");
        push_str(&mut args, "--select");
        let mut selector = String::from_str("uuid=");
        selector.append(uuid.as_str());
        push_str(&mut args, selector.as_str());
        proof {
            assert(texts(args@) =~= report_options("+lv_all"@) + seq![
                "--select"@,
                "uuid="@ + uuid@,
            ]);
        }
        Invocation { command: String::from_str("lvs"), args }
    }

    /// The command that creates a logical volume in `volume_group`.
    pub fn create(volume_group: &ResourceName, opts: &LVCreateOptions) -> (r: Invocation)
        ensures
            r.command@ == "lvcreate"@,
            texts(r.args@) == lv_create_args(volume_group@, opts),
    {
        let mut args: Vec<String> = Vec::new();
        push_str(&mut args, "--activate");
        push_str(&mut args, if opts.activate { "ay" } else { "an" });
        push_str(&mut args, "--name");
        push_str(&mut args, opts.name.as_str());
        push_str(&mut args, "--size");
        let mut size = String::new();
        push_decimal(&mut size, opts.capacity_bytes.bytes() as u128);
        size.append("B");
        push_str(&mut args, size.as_str());
        proof {
            assert(size@ =~= decimal(opts.capacity_bytes@) + "B"@);
            assert(texts(args@) =~= seq![
                "--activate"@,
                if opts.activate {
                    "ay"@
                } else {
                    "an"@
                },
                "--name"@,
                opts.name@,
                "--size"@,
                decimal(opts.capacity_bytes@) + "B"@,
            ]);
        }
        let ghost head = texts(args@);
        let n = opts.tags.len();
        for i in 0..n
            invariant
                n == opts.tags@.len(),
                texts(args@) == head + tag_args(texts(opts.tags@.subrange(0, i as int))),
        {
            push_str(&mut args, "--addtag");
            push_str(&mut args, opts.tags[i].as_str());
            proof {
                let before = texts(opts.tags@.subrange(0, i as int));
                let after = texts(opts.tags@.subrange(0, i + 1));
                assert(after.drop_last() =~= before);
                assert(after.last() == opts.tags@[i as int]@);
                assert(texts(args@) =~= head + tag_args(after));
            }
        }
        proof {
            assert(opts.tags@.subrange(0, n as int) =~= opts.tags@);
        }
        push_str(&mut args, volume_group.as_str());
        proof {
            assert(texts(args@) =~= lv_create_args(volume_group@, opts));
        }
        Invocation { command: String::from_str("lvcreate"), args }
    }

    /// Decides what follows `lvcreate`: where it succeeded, the query that fetches the new
    /// volume.
    pub fn create_output(
        volume_group: &ResourceName,
        opts: &LVCreateOptions,
        inv: &Invocation,
        out: &ProcessOutput,
    ) -> (r: Result<Invocation, LVMError>)
        ensures
            r is Ok <==> check_mutation_ok(out),
            r matches Ok(next) ==> next.command@ == "lvs"@ && texts(next.args@) == report_options(
                "+lv_all"@,
            ) + seq![lv_id(volume_group@, opts.name@)],
            r matches Err(e) ==> mutation_error(inv, out, &e),
    {
        match check_mutation(inv, out) {
            Ok(()) => Ok(Self::from_id(volume_group, &opts.name)),
            Err(e) => Err(e),
        }
    }

    /// The command that removes this logical volume; the volume is consumed.
    pub fn delete(self) -> (r: Invocation)
        ensures
            r.command@ == "lvremove"@,
            texts(r.args@) == seq!["--force"@, lv_id(self.volume_group_name@, self.name@)],
    {
        let mut args: Vec<String> = Vec::new();
        push_str(&mut args, "--force");
        let id = self.id();
        push_str(&mut args, id.as_str());
        proof {
            assert(texts(args@) =~= seq!["--force"@, lv_id(self.volume_group_name@, self.name@)]);
        }
        Invocation { command: String::from_str("lvremove"), args }
    }

    /// The identifier `<volume group>/<name>`.
    pub fn from_id_text(volume_group: &ResourceName, name: &ResourceName) -> (r: String)
        ensures
            r@ == lv_id(volume_group@, name@),
    {
        let mut id = volume_group.to_string();
        id.append("/");
        id.append(name.as_str());
        id
    }

    /// The identifier `<volume group>/<name>` of this logical volume.
    pub fn id(&self) -> (r: String)
        ensures
            r@ == lv_id(self.volume_group_name@, self.name@),
    {
        Self::from_id_text(&self.volume_group_name, &self.name)
    }

    /// The command that activates logical volumes.
    pub fn activate(&mut self) -> (r: Invocation)
        ensures
            *final(self) == *old(self),
            r.command@ == "lvchange"@,
            texts(r.args@) == seq!["--activate"@, "ay"@],
    {
        self.set_activated(true)
    }

    /// The command that deactivates logical volumes.
    pub fn deactivate(&mut self) -> (r: Invocation)
        ensures
            *final(self) == *old(self),
            r.command@ == "lvchange"@,
            texts(r.args@) == seq!["--activate"@, "n"@],
    {
        self.set_activated(false)
    }

    /// The command that sets the activation of logical volumes; this record is not changed.
    pub fn set_activated(&mut self, should_activate: bool) -> (r: Invocation)
        ensures
            *final(self) == *old(self),
            r.command@ == "lvchange"@,
            texts(r.args@) == seq![
                "--activate"@,
                if should_activate {
                    "ay"@
                } else {
                    "n"@
                },
            ],
    {
        let mut args: Vec<String> = Vec::new();
        push_str(&mut args, "--activate");
        push_str(&mut args, if should_activate { "ay" } else { "n" });
        proof {
            assert(texts(args@) =~= seq![
                "--activate"@,
                if should_activate {
                    "ay"@
                } else {
                    "n"@
                },
            ]);
        }
        Invocation { command: String::from_str("lvchange"), args }
    }
}

} // verus!
