//! The record types exchanged with the systemd manager.
//!
//! Each record is a plain struct of strings, integers and booleans (or
//! sequences of further records), wired to the codec by an [`Encodable`] and
//! a [`Decodable`] impl whose models spell out, field by field in
//! declaration order, the one wire value the record encodes to and the exact
//! outcome of decoding it back.

use vstd::prelude::*;
use crate::decode::{
    take_bool, take_str, take_struct, Decodable, Decoder, DecoderError, DecoderErrorSpec,
};
use crate::encode::{encode_elems, Encodable, Encoder, EncoderError, EncoderErrorSpec, EncoderState};
use crate::wire::WireSpec;

verus! {

/// An object reference is carried as a string.
pub type ObjectPath = String;

/// Unit status returned from the systemd manager.
#[derive(Debug, PartialEq)]
pub struct UnitStatus {
    pub name: String,
    pub description: String,
    pub load_state: String,
    pub active_state: String,
    pub sub_state: String,
    pub followed: String,
    pub path: ObjectPath,
    pub job_id: u32,
    pub job_type: String,
    pub job_path: ObjectPath,
}

/// The mathematical model of a [`UnitStatus`].
pub struct UnitStatusView {
    pub name: Seq<char>,
    pub description: Seq<char>,
    pub load_state: Seq<char>,
    pub active_state: Seq<char>,
    pub sub_state: Seq<char>,
    pub followed: Seq<char>,
    pub path: Seq<char>,
    pub job_id: u32,
    pub job_type: Seq<char>,
    pub job_path: Seq<char>,
}

impl DeepView for UnitStatus {
    type V = UnitStatusView;

    open spec fn deep_view(&self) -> UnitStatusView {
        UnitStatusView {
            name: self.name@,
            description: self.description@,
            load_state: self.load_state@,
            active_state: self.active_state@,
            sub_state: self.sub_state@,
            followed: self.followed@,
            path: self.path@,
            job_id: self.job_id,
            job_type: self.job_type@,
            job_path: self.job_path@,
        }
    }
}

impl Encodable for UnitStatus {
    open spec fn encode_spec(&self) -> Result<WireSpec, EncoderErrorSpec> {
        Ok(
            WireSpec::Struct(
                seq![
                    WireSpec::Str(self.name@),
                    WireSpec::Str(self.description@),
                    WireSpec::Str(self.load_state@),
                    WireSpec::Str(self.active_state@),
                    WireSpec::Str(self.sub_state@),
                    WireSpec::Str(self.followed@),
                    WireSpec::Str(self.path@),
                    WireSpec::UInt32(self.job_id),
                    WireSpec::Str(self.job_type@),
                    WireSpec::Str(self.job_path@),
                ],
            ),
        )
    }

    fn encode_onto(&self, e: &mut Encoder) -> (r: Result<(), EncoderError>) {
        let mut sub = Encoder::new_struct();
        match sub.emit_str(self.name.as_str()) {
            Ok(x) => {},
            Err(er) => return Err(er),
        }
        match sub.emit_str(self.description.as_str()) {
            Ok(x) => {},
            Err(er) => return Err(er),
        }
        match sub.emit_str(self.load_state.as_str()) {
            Ok(x) => {},
            Err(er) => return Err(er),
        }
        match sub.emit_str(self.active_state.as_str()) {
            Ok(x) => {},
            Err(er) => return Err(er),
        }
        match sub.emit_str(self.sub_state.as_str()) {
            Ok(x) => {},
            Err(er) => return Err(er),
        }
        match sub.emit_str(self.followed.as_str()) {
            Ok(x) => {},
            Err(er) => return Err(er),
        }
        match sub.emit_str(self.path.as_str()) {
            Ok(x) => {},
            Err(er) => return Err(er),
        }
        match sub.emit_u32(self.job_id) {
            Ok(x) => {},
            Err(er) => return Err(er),
        }
        match sub.emit_str(self.job_type.as_str()) {
            Ok(x) => {},
            Err(er) => return Err(er),
        }
        match sub.emit_str(self.job_path.as_str()) {
            Ok(x) => {},
            Err(er) => return Err(er),
        }
        proof {
            assert(Seq::<WireSpec>::empty().push(WireSpec::Str(self.name@)).push(
                WireSpec::Str(self.description@),
            ).push(WireSpec::Str(self.load_state@)).push(WireSpec::Str(self.active_state@)).push(
                WireSpec::Str(self.sub_state@),
            ).push(WireSpec::Str(self.followed@)).push(WireSpec::Str(self.path@)).push(
                WireSpec::UInt32(self.job_id),
            ).push(WireSpec::Str(self.job_type@)).push(WireSpec::Str(self.job_path@)) =~= seq![
                WireSpec::Str(self.name@),
                WireSpec::Str(self.description@),
                WireSpec::Str(self.load_state@),
                WireSpec::Str(self.active_state@),
                WireSpec::Str(self.sub_state@),
                WireSpec::Str(self.followed@),
                WireSpec::Str(self.path@),
                WireSpec::UInt32(self.job_id),
                WireSpec::Str(self.job_type@),
                WireSpec::Str(self.job_path@),
            ]);
        }
        sub.finish_into(e)
    }
}

impl Decodable for UnitStatus {
    open spec fn decode_spec(items: Seq<WireSpec>) -> Result<
        (UnitStatusView, Seq<WireSpec>),
        DecoderErrorSpec,
    > {
        match take_struct(items) {
            Ok((fs, rest)) => match take_str(fs) {
                Ok((name, f1)) => match take_str(f1) {
                    Ok((description, f2)) => match take_str(f2) {
                        Ok((load_state, f3)) => match take_str(f3) {
                            Ok((active_state, f4)) => match take_str(f4) {
                                Ok((sub_state, f5)) => match take_str(f5) {
                                    Ok((followed, f6)) => match take_str(f6) {
                                        Ok((path, f7)) => match crate::decode::take_int(
                                            f7,
                                            0,
                                            u32::MAX as int,
                                        ) {
                                            Ok((job_id, f8)) => match take_str(f8) {
                                                Ok((job_type, f9)) => match take_str(f9) {
                                                    Ok((job_path, _f10)) => Ok(
                                                        (
                                                            UnitStatusView {
                                                                name,
                                                                description,
                                                                load_state,
                                                                active_state,
                                                                sub_state,
                                                                followed,
                                                                path,
                                                                job_id: job_id as u32,
                                                                job_type,
                                                                job_path,
                                                            },
                                                            rest,
                                                        ),
                                                    ),
                                                    Err(e) => Err(e),
                                                },
                                                Err(e) => Err(e),
                                            },
                                            Err(e) => Err(e),
                                        },
                                        Err(e) => Err(e),
                                    },
                                    Err(e) => Err(e),
                                },
                                Err(e) => Err(e),
                            },
                            Err(e) => Err(e),
                        },
                        Err(e) => Err(e),
                    },
                    Err(e) => Err(e),
                },
                Err(e) => Err(e),
            },
            Err(e) => Err(e),
        }
    }

    fn decode_from(d: &mut Decoder) -> (r: Result<UnitStatus, DecoderError>) {
        let mut sub = match d.read_struct() {
            Ok(s) => s,
            Err(e) => return Err(e),
        };
        let name = match sub.read_str() {
            Ok(s) => s,
            Err(e) => return Err(e),
        };
        let description = match sub.read_str() {
            Ok(s) => s,
            Err(e) => return Err(e),
        };
        let load_state = match sub.read_str() {
            Ok(s) => s,
            Err(e) => return Err(e),
        };
        let active_state = match sub.read_str() {
            Ok(s) => s,
            Err(e) => return Err(e),
        };
        let sub_state = match sub.read_str() {
            Ok(s) => s,
            Err(e) => return Err(e),
        };
        let followed = match sub.read_str() {
            Ok(s) => s,
            Err(e) => return Err(e),
        };
        let path = match sub.read_str() {
            Ok(s) => s,
            Err(e) => return Err(e),
        };
        let job_id = match sub.read_u32() {
            Ok(v) => v,
            Err(e) => return Err(e),
        };
        let job_type = match sub.read_str() {
            Ok(s) => s,
            Err(e) => return Err(e),
        };
        let job_path = match sub.read_str() {
            Ok(s) => s,
            Err(e) => return Err(e),
        };
        Ok(
            UnitStatus {
                name,
                description,
                load_state,
                active_state,
                sub_state,
                followed,
                path,
                job_id,
                job_type,
                job_path,
            },
        )
    }
}

/// Information on one job of the systemd manager.
#[derive(Debug, PartialEq)]
pub struct Job {
    /// The numeric job id.
    pub job_id: u32,
    /// The primary unit name for this job.
    pub name: String,
    /// The job type as string.
    pub job_type: String,
    /// The job state as string.
    pub job_state: String,
    /// The job object path.
    pub job_path: ObjectPath,
    /// The unit object path.
    pub path: ObjectPath,
}

/// The mathematical model of a [`Job`].
pub struct JobView {
    pub job_id: u32,
    pub name: Seq<char>,
    pub job_type: Seq<char>,
    pub job_state: Seq<char>,
    pub job_path: Seq<char>,
    pub path: Seq<char>,
}

impl DeepView for Job {
    type V = JobView;

    open spec fn deep_view(&self) -> JobView {
        JobView {
            job_id: self.job_id,
            name: self.name@,
            job_type: self.job_type@,
            job_state: self.job_state@,
            job_path: self.job_path@,
            path: self.path@,
        }
    }
}

impl Encodable for Job {
    open spec fn encode_spec(&self) -> Result<WireSpec, EncoderErrorSpec> {
        Ok(
            WireSpec::Struct(
                seq![
                    WireSpec::UInt32(self.job_id),
                    WireSpec::Str(self.name@),
                    WireSpec::Str(self.job_type@),
                    WireSpec::Str(self.job_state@),
                    WireSpec::Str(self.job_path@),
                    WireSpec::Str(self.path@),
                ],
            ),
        )
    }

    fn encode_onto(&self, e: &mut Encoder) -> (r: Result<(), EncoderError>) {
        let mut sub = Encoder::new_struct();
        match sub.emit_u32(self.job_id) {
            Ok(x) => {},
            Err(er) => return Err(er),
        }
        match sub.emit_str(self.name.as_str()) {
            Ok(x) => {},
            Err(er) => return Err(er),
        }
        match sub.emit_str(self.job_type.as_str()) {
            Ok(x) => {},
            Err(er) => return Err(er),
        }
        match sub.emit_str(self.job_state.as_str()) {
            Ok(x) => {},
            Err(er) => return Err(er),
        }
        match sub.emit_str(self.job_path.as_str()) {
            Ok(x) => {},
            Err(er) => return Err(er),
        }
        match sub.emit_str(self.path.as_str()) {
            Ok(x) => {},
            Err(er) => return Err(er),
        }
        proof {
            assert(Seq::<WireSpec>::empty().push(WireSpec::UInt32(self.job_id)).push(
                WireSpec::Str(self.name@),
            ).push(WireSpec::Str(self.job_type@)).push(WireSpec::Str(self.job_state@)).push(
                WireSpec::Str(self.job_path@),
            ).push(WireSpec::Str(self.path@)) =~= seq![
                WireSpec::UInt32(self.job_id),
                WireSpec::Str(self.name@),
                WireSpec::Str(self.job_type@),
                WireSpec::Str(self.job_state@),
                WireSpec::Str(self.job_path@),
                WireSpec::Str(self.path@),
            ]);
        }
        sub.finish_into(e)
    }
}

impl Decodable for Job {
    open spec fn decode_spec(items: Seq<WireSpec>) -> Result<
        (JobView, Seq<WireSpec>),
        DecoderErrorSpec,
    > {
        match take_struct(items) {
            Ok((fs, rest)) => match crate::decode::take_int(fs, 0, u32::MAX as int) {
                Ok((job_id, f1)) => match take_str(f1) {
                    Ok((name, f2)) => match take_str(f2) {
                        Ok((job_type, f3)) => match take_str(f3) {
                            Ok((job_state, f4)) => match take_str(f4) {
                                Ok((job_path, f5)) => match take_str(f5) {
                                    Ok((path, _f6)) => Ok(
                                        (
                                            JobView {
                                                job_id: job_id as u32,
                                                name,
                                                job_type,
                                                job_state,
                                                job_path,
                                                path,
                                            },
                                            rest,
                                        ),
                                    ),
                                    Err(e) => Err(e),
                                },
                                Err(e) => Err(e),
                            },
                            Err(e) => Err(e),
                        },
                        Err(e) => Err(e),
                    },
                    Err(e) => Err(e),
                },
                Err(e) => Err(e),
            },
            Err(e) => Err(e),
        }
    }

    fn decode_from(d: &mut Decoder) -> (r: Result<Job, DecoderError>) {
        let mut sub = match d.read_struct() {
            Ok(s) => s,
            Err(e) => return Err(e),
        };
        let job_id = match sub.read_u32() {
            Ok(v) => v,
            Err(e) => return Err(e),
        };
        let name = match sub.read_str() {
            Ok(s) => s,
            Err(e) => return Err(e),
        };
        let job_type = match sub.read_str() {
            Ok(s) => s,
            Err(e) => return Err(e),
        };
        let job_state = match sub.read_str() {
            Ok(s) => s,
            Err(e) => return Err(e),
        };
        let job_path = match sub.read_str() {
            Ok(s) => s,
            Err(e) => return Err(e),
        };
        let path = match sub.read_str() {
            Ok(s) => s,
            Err(e) => return Err(e),
        };
        Ok(Job { job_id, name, job_type, job_state, job_path, path })
    }
}

/// Information on one unit file.
#[derive(Debug, PartialEq)]
pub struct UnitFile {
    pub name: String,
    pub state: String,
}

/// The mathematical model of a [`UnitFile`].
pub struct UnitFileView {
    pub name: Seq<char>,
    pub state: Seq<char>,
}

impl DeepView for UnitFile {
    type V = UnitFileView;

    open spec fn deep_view(&self) -> UnitFileView {
        UnitFileView { name: self.name@, state: self.state@ }
    }
}

impl Encodable for UnitFile {
    open spec fn encode_spec(&self) -> Result<WireSpec, EncoderErrorSpec> {
        Ok(WireSpec::Struct(seq![WireSpec::Str(self.name@), WireSpec::Str(self.state@)]))
    }

    fn encode_onto(&self, e: &mut Encoder) -> (r: Result<(), EncoderError>) {
        let mut sub = Encoder::new_struct();
        match sub.emit_str(self.name.as_str()) {
            Ok(x) => {},
            Err(er) => return Err(er),
        }
        match sub.emit_str(self.state.as_str()) {
            Ok(x) => {},
            Err(er) => return Err(er),
        }
        proof {
            assert(Seq::<WireSpec>::empty().push(WireSpec::Str(self.name@)).push(
                WireSpec::Str(self.state@),
            ) =~= seq![WireSpec::Str(self.name@), WireSpec::Str(self.state@)]);
        }
        sub.finish_into(e)
    }
}

impl Decodable for UnitFile {
    open spec fn decode_spec(items: Seq<WireSpec>) -> Result<
        (UnitFileView, Seq<WireSpec>),
        DecoderErrorSpec,
    > {
        match take_struct(items) {
            Ok((fs, rest)) => match take_str(fs) {
                Ok((name, f1)) => match take_str(f1) {
                    Ok((state, _f2)) => Ok((UnitFileView { name, state }, rest)),
                    Err(e) => Err(e),
                },
                Err(e) => Err(e),
            },
            Err(e) => Err(e),
        }
    }

    fn decode_from(d: &mut Decoder) -> (r: Result<UnitFile, DecoderError>) {
        let mut sub = match d.read_struct() {
            Ok(s) => s,
            Err(e) => return Err(e),
        };
        let name = match sub.read_str() {
            Ok(s) => s,
            Err(e) => return Err(e),
        };
        let state = match sub.read_str() {
            Ok(s) => s,
            Err(e) => return Err(e),
        };
        Ok(UnitFile { name, state })
    }
}

/// One change made to a unit file.
#[derive(Debug, PartialEq)]
pub struct UnitFileChange {
    pub action: String,
    pub link: String,
    pub destination: String,
}

/// The mathematical model of a [`UnitFileChange`].
pub struct UnitFileChangeView {
    pub action: Seq<char>,
    pub link: Seq<char>,
    pub destination: Seq<char>,
}

impl DeepView for UnitFileChange {
    type V = UnitFileChangeView;

    open spec fn deep_view(&self) -> UnitFileChangeView {
        UnitFileChangeView {
            action: self.action@,
            link: self.link@,
            destination: self.destination@,
        }
    }
}

impl Encodable for UnitFileChange {
    open spec fn encode_spec(&self) -> Result<WireSpec, EncoderErrorSpec> {
        Ok(
            WireSpec::Struct(
                seq![
                    WireSpec::Str(self.action@),
                    WireSpec::Str(self.link@),
                    WireSpec::Str(self.destination@),
                ],
            ),
        )
    }

    fn encode_onto(&self, e: &mut Encoder) -> (r: Result<(), EncoderError>) {
        let mut sub = Encoder::new_struct();
        match sub.emit_str(self.action.as_str()) {
            Ok(x) => {},
            Err(er) => return Err(er),
        }
        match sub.emit_str(self.link.as_str()) {
            Ok(x) => {},
            Err(er) => return Err(er),
        }
        match sub.emit_str(self.destination.as_str()) {
            Ok(x) => {},
            Err(er) => return Err(er),
        }
        proof {
            assert(Seq::<WireSpec>::empty().push(WireSpec::Str(self.action@)).push(
                WireSpec::Str(self.link@),
            ).push(WireSpec::Str(self.destination@)) =~= seq![
                WireSpec::Str(self.action@),
                WireSpec::Str(self.link@),
                WireSpec::Str(self.destination@),
            ]);
        }
        sub.finish_into(e)
    }
}

impl Decodable for UnitFileChange {
    open spec fn decode_spec(items: Seq<WireSpec>) -> Result<
        (UnitFileChangeView, Seq<WireSpec>),
        DecoderErrorSpec,
    > {
        match take_struct(items) {
            Ok((fs, rest)) => match take_str(fs) {
                Ok((action, f1)) => match take_str(f1) {
                    Ok((link, f2)) => match take_str(f2) {
                        Ok((destination, _f3)) => Ok(
                            (UnitFileChangeView { action, link, destination }, rest),
                        ),
                        Err(e) => Err(e),
                    },
                    Err(e) => Err(e),
                },
                Err(e) => Err(e),
            },
            Err(e) => Err(e),
        }
    }

    fn decode_from(d: &mut Decoder) -> (r: Result<UnitFileChange, DecoderError>) {
        let mut sub = match d.read_struct() {
            Ok(s) => s,
            Err(e) => return Err(e),
        };
        let action = match sub.read_str() {
            Ok(s) => s,
            Err(e) => return Err(e),
        };
        let link = match sub.read_str() {
            Ok(s) => s,
            Err(e) => return Err(e),
        };
        let destination = match sub.read_str() {
            Ok(s) => s,
            Err(e) => return Err(e),
        };
        Ok(UnitFileChange { action, link, destination })
    }
}

/// The changes a unit-file operation made, with its install-info flag.
#[derive(Debug, PartialEq)]
pub struct UnitFileChanges {
    pub carries_install_info: bool,
    pub changes: Vec<UnitFileChange>,
}

/// The mathematical model of a [`UnitFileChanges`].
pub struct UnitFileChangesView {
    pub carries_install_info: bool,
    pub changes: Seq<UnitFileChangeView>,
}

impl DeepView for UnitFileChanges {
    type V = UnitFileChangesView;

    open spec fn deep_view(&self) -> UnitFileChangesView {
        UnitFileChangesView {
            carries_install_info: self.carries_install_info,
            changes: self.changes.deep_view(),
        }
    }
}

impl Encodable for UnitFileChanges {
    open spec fn encode_spec(&self) -> Result<WireSpec, EncoderErrorSpec> {
        match self.changes.encode_spec() {
            Ok(aw) => Ok(
                WireSpec::Struct(seq![WireSpec::Bool(self.carries_install_info), aw]),
            ),
            Err(e) => Err(e),
        }
    }

    fn encode_onto(&self, e: &mut Encoder) -> (r: Result<(), EncoderError>) {
        let mut sub = Encoder::new_struct();
        match sub.emit_bool(self.carries_install_info) {
            Ok(x) => {},
            Err(er) => return Err(er),
        }
        match self.changes.encode_onto(&mut sub) {
            Ok(x) => {},
            Err(er) => return Err(er),
        }
        proof {
            match self.changes.encode_spec() {
                Ok(aw) => {
                    assert(Seq::<WireSpec>::empty().push(
                        WireSpec::Bool(self.carries_install_info),
                    ).push(aw) =~= seq![WireSpec::Bool(self.carries_install_info), aw]);
                },
                Err(er) => {},
            }
        }
        sub.finish_into(e)
    }
}

impl Decodable for UnitFileChanges {
    open spec fn decode_spec(items: Seq<WireSpec>) -> Result<
        (UnitFileChangesView, Seq<WireSpec>),
        DecoderErrorSpec,
    > {
        match take_struct(items) {
            Ok((fs, rest)) => match take_bool(fs) {
                Ok((carries_install_info, f1)) => match Vec::<UnitFileChange>::decode_spec(f1) {
                    Ok((changes, _f2)) => Ok(
                        (UnitFileChangesView { carries_install_info, changes }, rest),
                    ),
                    Err(e) => Err(e),
                },
                Err(e) => Err(e),
            },
            Err(e) => Err(e),
        }
    }

    fn decode_from(d: &mut Decoder) -> (r: Result<UnitFileChanges, DecoderError>) {
        let mut sub = match d.read_struct() {
            Ok(s) => s,
            Err(e) => return Err(e),
        };
        let carries_install_info = match sub.read_bool() {
            Ok(b) => b,
            Err(e) => return Err(e),
        };
        let changes = match Vec::<UnitFileChange>::decode_from(&mut sub) {
            Ok(v) => v,
            Err(e) => return Err(e),
        };
        Ok(UnitFileChanges { carries_install_info, changes })
    }
}

/// One property of a unit.
#[derive(Debug, PartialEq)]
pub struct UnitProperty {
    pub name: String,
    pub value: String,
}

/// The mathematical model of a [`UnitProperty`].
pub struct UnitPropertyView {
    pub name: Seq<char>,
    pub value: Seq<char>,
}

impl DeepView for UnitProperty {
    type V = UnitPropertyView;

    open spec fn deep_view(&self) -> UnitPropertyView {
        UnitPropertyView { name: self.name@, value: self.value@ }
    }
}

impl Encodable for UnitProperty {
    open spec fn encode_spec(&self) -> Result<WireSpec, EncoderErrorSpec> {
        Ok(WireSpec::Struct(seq![WireSpec::Str(self.name@), WireSpec::Str(self.value@)]))
    }

    fn encode_onto(&self, e: &mut Encoder) -> (r: Result<(), EncoderError>) {
        let mut sub = Encoder::new_struct();
        match sub.emit_str(self.name.as_str()) {
            Ok(x) => {},
            Err(er) => return Err(er),
        }
        match sub.emit_str(self.value.as_str()) {
            Ok(x) => {},
            Err(er) => return Err(er),
        }
        proof {
            assert(Seq::<WireSpec>::empty().push(WireSpec::Str(self.name@)).push(
                WireSpec::Str(self.value@),
            ) =~= seq![WireSpec::Str(self.name@), WireSpec::Str(self.value@)]);
        }
        sub.finish_into(e)
    }
}

impl Decodable for UnitProperty {
    open spec fn decode_spec(items: Seq<WireSpec>) -> Result<
        (UnitPropertyView, Seq<WireSpec>),
        DecoderErrorSpec,
    > {
        match take_struct(items) {
            Ok((fs, rest)) => match take_str(fs) {
                Ok((name, f1)) => match take_str(f1) {
                    Ok((value, _f2)) => Ok((UnitPropertyView { name, value }, rest)),
                    Err(e) => Err(e),
                },
                Err(e) => Err(e),
            },
            Err(e) => Err(e),
        }
    }

    fn decode_from(d: &mut Decoder) -> (r: Result<UnitProperty, DecoderError>) {
        let mut sub = match d.read_struct() {
            Ok(s) => s,
            Err(e) => return Err(e),
        };
        let name = match sub.read_str() {
            Ok(s) => s,
            Err(e) => return Err(e),
        };
        let value = match sub.read_str() {
            Ok(s) => s,
            Err(e) => return Err(e),
        };
        Ok(UnitProperty { name, value })
    }
}

/// A unit's name with its properties.
#[derive(Debug, PartialEq)]
pub struct UnitAux {
    pub name: String,
    pub properties: Vec<UnitProperty>,
}

/// The mathematical model of a [`UnitAux`].
pub struct UnitAuxView {
    pub name: Seq<char>,
    pub properties: Seq<UnitPropertyView>,
}

impl DeepView for UnitAux {
    type V = UnitAuxView;

    open spec fn deep_view(&self) -> UnitAuxView {
        UnitAuxView { name: self.name@, properties: self.properties.deep_view() }
    }
}

impl Encodable for UnitAux {
    open spec fn encode_spec(&self) -> Result<WireSpec, EncoderErrorSpec> {
        match self.properties.encode_spec() {
            Ok(aw) => Ok(WireSpec::Struct(seq![WireSpec::Str(self.name@), aw])),
            Err(e) => Err(e),
        }
    }

    fn encode_onto(&self, e: &mut Encoder) -> (r: Result<(), EncoderError>) {
        let mut sub = Encoder::new_struct();
        match sub.emit_str(self.name.as_str()) {
            Ok(x) => {},
            Err(er) => return Err(er),
        }
        match self.properties.encode_onto(&mut sub) {
            Ok(x) => {},
            Err(er) => return Err(er),
        }
        proof {
            match self.properties.encode_spec() {
                Ok(aw) => {
                    assert(Seq::<WireSpec>::empty().push(WireSpec::Str(self.name@)).push(aw)
                        =~= seq![WireSpec::Str(self.name@), aw]);
                },
                Err(er) => {},
            }
        }
        sub.finish_into(e)
    }
}

impl Decodable for UnitAux {
    open spec fn decode_spec(items: Seq<WireSpec>) -> Result<
        (UnitAuxView, Seq<WireSpec>),
        DecoderErrorSpec,
    > {
        match take_struct(items) {
            Ok((fs, rest)) => match take_str(fs) {
                Ok((name, f1)) => match Vec::<UnitProperty>::decode_spec(f1) {
                    Ok((properties, _f2)) => Ok((UnitAuxView { name, properties }, rest)),
                    Err(e) => Err(e),
                },
                Err(e) => Err(e),
            },
            Err(e) => Err(e),
        }
    }

    fn decode_from(d: &mut Decoder) -> (r: Result<UnitAux, DecoderError>) {
        let mut sub = match d.read_struct() {
            Ok(s) => s,
            Err(e) => return Err(e),
        };
        let name = match sub.read_str() {
            Ok(s) => s,
            Err(e) => return Err(e),
        };
        let properties = match Vec::<UnitProperty>::decode_from(&mut sub) {
            Ok(v) => v,
            Err(e) => return Err(e),
        };
        Ok(UnitAux { name, properties })
    }
}

} // verus!
