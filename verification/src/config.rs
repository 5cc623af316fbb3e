//! The settings of the user interface: the ensemble and its services, and
//! the multiplexer configuration document that is generated from them.

use vstd::prelude::*;
use vstd::string::StringExecFns;
use crate::document::{
    bool_value, member_models, model, no_members, number_model, number_value, object_value, put,
    put_named,
    text_value, Json,
};
use crate::json::JsonValue;
use crate::text::{decimal, decimal_text, hex_text, hex_upper, prefixed};

verus! {

/// One audio service of the ensemble.
#[derive(Debug, Clone)]
pub struct Service {
    pub unique_id: String,
    pub sid: u32,
    pub ecc: u8,
    pub label: String,
    pub shortlabel: String,
    pub input_port: u16,
    pub bitrate: u32,
    pub protection: u8,
}

/// The settings of one multiplexer instance.
#[derive(Debug, Clone)]
pub struct Config {
    pub instance_name: String,
    pub tist: bool,
    pub tist_offset: i32,
    pub ensemble_id: u16,
    pub ensemble_ecc: u8,
    pub ensemble_label: String,
    pub ensemble_shortlabel: String,
    pub output_edi_port: u16,
    pub services: Vec<Service>,
}

/// The part of the generated document that a member list belongs to.
#[derive(Debug, Clone, Copy, PartialEq, Eq)]
pub enum Section {
    Services,
    Subchannels,
    Components,
}

/// The entry of a service under `services`.
pub open spec fn service_document(s: Service) -> Json {
    Json::Object(
        seq![
            ("id"@, number_model(s.sid as int)),
            ("ecc"@, number_model(s.ecc as int)),
            ("label"@, Json::Text(s.label@)),
            ("shortlabel"@, Json::Text(s.shortlabel@)),
        ],
    )
}

/// The entry of a service under `subchannels`, with the subchannel number
/// `id`: a DAB+ subchannel fed over EDI from the service's local port.
pub open spec fn subchannel_document(s: Service, id: int) -> Json {
    Json::Object(
        seq![
            ("type"@, Json::Text("dabplus"@)),
            ("bitrate"@, number_model(s.bitrate as int)),
            ("id"@, number_model(id)),
            ("protection"@, number_model(s.protection as int)),
            ("inputproto"@, Json::Text("edi"@)),
            ("inputuri"@, Json::Text("tcp://127.0.0.1:"@ + decimal_text(s.input_port as nat))),
            ("buffer-management"@, Json::Text("prebuffering"@)),
            ("buffer"@, number_model(40)),
            ("prebuffering"@, number_model(20)),
        ],
    )
}

/// The entry of a service under `components`: it ties the service to its
/// subchannel and announces a slideshow.
pub open spec fn component_document(s: Service) -> Json {
    Json::Object(
        seq![
            ("service"@, Json::Text("srv-"@ + s.unique_id@)),
            ("subchannel"@, Json::Text("sub-"@ + s.unique_id@)),
            (
                "user-applications"@,
                Json::Object(seq![("userapp"@, Json::Text("slideshow"@))]),
            ),
        ],
    )
}

/// A later service has the same unique id as service `i`.
pub open spec fn recurs_later(services: Seq<Service>, i: int) -> bool {
    exists|j: int|
        i < j < services.len() && (#[trigger] services[j]).unique_id@ == services[i].unique_id@
}

/// The key of a service in a section.
pub open spec fn section_key(kind: Section, s: Service) -> Seq<char> {
    match kind {
        Section::Services => "srv-"@ + s.unique_id@,
        Section::Subchannels => "sub-"@ + s.unique_id@,
        Section::Components => "comp-"@ + s.unique_id@,
    }
}

/// The entry of the service at `index` in a section. Subchannels are
/// numbered from one in the order of the services.
pub open spec fn section_document(kind: Section, s: Service, index: int) -> Json {
    match kind {
        Section::Services => service_document(s),
        Section::Subchannels => subchannel_document(s, index + 1),
        Section::Components => component_document(s),
    }
}

/// The members of a section for the services from `from` on, in the order of
/// the services. Of several services with one unique id only the last has an
/// entry.
pub open spec fn section_members(kind: Section, services: Seq<Service>, from: int) -> Seq<
    (Seq<char>, Json),
>
    decreases services.len() - from,
{
    if from < 0 || from >= services.len() {
        Seq::empty()
    } else if recurs_later(services, from) {
        section_members(kind, services, from + 1)
    } else {
        seq![
            (section_key(kind, services[from]), section_document(kind, services[from], from)),
        ] + section_members(kind, services, from + 1)
    }
}

/// The `general` section of the generated document.
pub open spec fn general_document(c: Config) -> Json {
    Json::Object(
        seq![
            ("dabmode"@, number_model(1)),
            ("nbframes"@, number_model(0)),
            ("syslog"@, Json::Bool(false)),
            ("tist"@, Json::Bool(c.tist)),
            ("tist_offset"@, number_model(c.tist_offset as int)),
            ("managementport"@, number_model(12720)),
        ],
    )
}

/// The `remotecontrol` section of the generated document.
pub open spec fn remote_document() -> Json {
    Json::Object(
        seq![
            ("telnetport"@, number_model(12721)),
            ("zmqendpoint"@, Json::Text("tcp://lo:12722"@)),
        ],
    )
}

/// The `ensemble` section of the generated document.
pub open spec fn ensemble_document(c: Config) -> Json {
    Json::Object(
        seq![
            ("id"@, number_model(c.ensemble_id as int)),
            ("ecc"@, number_model(c.ensemble_ecc as int)),
            ("local-time-offset"@, Json::Text("auto"@)),
            ("reconfig-counter"@, Json::Text("hash"@)),
            ("label"@, Json::Text(c.ensemble_label@)),
            ("shortlabel"@, Json::Text(c.ensemble_shortlabel@)),
        ],
    )
}

/// The EDI destination of the generated document: a TCP listener on the
/// configured port.
pub open spec fn listener_document(c: Config) -> Json {
    Json::Object(
        seq![
            ("protocol"@, Json::Text("tcp"@)),
            ("listenport"@, number_model(c.output_edi_port as int)),
        ],
    )
}

/// The `outputs` section of the generated document.
pub open spec fn outputs_document(c: Config) -> Json {
    Json::Object(
        seq![
            ("throttle"@, Json::Text("simul://"@)),
            (
                "edi"@,
                Json::Object(
                    seq![
                        ("destinations"@, Json::Object(seq![("example_tcp"@, listener_document(c))])),
                    ],
                ),
            ),
        ],
    )
}

/// The whole configuration document of the multiplexer, with the time of
/// writing in its comment.
pub open spec fn config_document(c: Config, now: Seq<char>) -> Json {
    Json::Object(
        seq![
            ("_comment"@, Json::Text("Generated at "@ + now + " by odr-dabmux-gui"@)),
            ("general"@, general_document(c)),
            ("remotecontrol"@, remote_document()),
            ("ensemble"@, ensemble_document(c)),
            ("services"@, Json::Object(section_members(Section::Services, c.services@, 0))),
            ("subchannels"@, Json::Object(section_members(Section::Subchannels, c.services@, 0))),
            ("components"@, Json::Object(section_members(Section::Components, c.services@, 0))),
            ("outputs"@, outputs_document(c)),
        ],
    )
}

fn component_entry(s: &Service) -> (r: JsonValue)
    ensures
        model(r) == component_document(*s),
{
    let mut apps = no_members();
    put(&mut apps, "userapp", text_value("slideshow"));
    assert(member_models(apps@) =~= seq![("userapp"@, Json::Text("slideshow"@))]);
    let mut m = no_members();
    put(&mut m, "service", text_value(prefixed("srv-", s.unique_id.as_str()).as_str()));
    put(&mut m, "subchannel", text_value(prefixed("sub-", s.unique_id.as_str()).as_str()));
    put(&mut m, "user-applications", object_value(apps));
    assert(member_models(m@) =~= component_document(*s)->Object_0);
    object_value(m)
}

/// Whether a later service has the same unique id as service `i`.
fn id_recurs_later(services: &Vec<Service>, i: usize) -> (r: bool)
    requires
        i < services.len(),
    ensures
        r == recurs_later(services@, i as int),
{
    let mut j: usize = i + 1;
    while j < services.len()
        invariant
            i < j <= services.len(),
            forall|k: int| i < k < j ==> (#[trigger] services@[k]).unique_id@ != services@[i as int].unique_id@,
        decreases services.len() - j,
    {
        if services[j].unique_id == services[i].unique_id {
            return true;
        }
        j += 1;
    }
    false
}

/// The members of one section of the generated document.
pub fn section_entries(services: &Vec<Service>, kind: Section) -> (r: Vec<(String, JsonValue)>)
    requires
        services.len() <= u32::MAX,
    ensures
        member_models(r@) == section_members(kind, services@, 0),
{
    let mut out: Vec<(String, JsonValue)> = Vec::new();
    let mut i: usize = 0;
    assert(member_models(out@) + section_members(kind, services@, 0) =~= section_members(
        kind,
        services@,
        0,
    ));
    while i < services.len()
        invariant
            i <= services.len(),
            services.len() <= u32::MAX,
            section_members(kind, services@, 0) == member_models(out@) + section_members(
                kind,
                services@,
                i as int,
            ),
        decreases services.len() - i,
    {
        if !id_recurs_later(services, i) {
            let s = &services[i];
            let ghost before = member_models(out@);
            let ghost rest = section_members(kind, services@, i as int + 1);
            let ghost entry = (section_key(kind, *s), section_document(kind, *s, i as int));
            match kind {
                Section::Services => {
                    put_named(
                        &mut out,
                        prefixed("srv-", s.unique_id.as_str()),
                        s.dump_to_service_json(),
                    );
                },
                Section::Subchannels => {
                    put_named(
                        &mut out,
                        prefixed("sub-", s.unique_id.as_str()),
                        s.dump_to_subchannel_json((i + 1) as u32),
                    );
                },
                Section::Components => {
                    put_named(
                        &mut out,
                        prefixed("comp-", s.unique_id.as_str()),
                        component_entry(s),
                    );
                },
            }
            assert(before.push(entry) + rest =~= before + (seq![entry] + rest));
        }
        i += 1;
    }
    assert(member_models(out@) + Seq::<(Seq<char>, Json)>::empty() =~= member_models(out@));
    out
}

impl Service {
    /// The entry of this service under `services` in the generated document.
    pub fn dump_to_service_json(&self) -> (r: JsonValue)
        ensures
            model(r) == service_document(*self),
    {
        let mut m = no_members();
        put(&mut m, "id", number_value(self.sid as i64));
        put(&mut m, "ecc", number_value(self.ecc as i64));
        put(&mut m, "label", text_value(self.label.as_str()));
        put(&mut m, "shortlabel", text_value(self.shortlabel.as_str()));
        assert(member_models(m@) =~= service_document(*self)->Object_0);
        object_value(m)
    }

    /// The entry of this service under `subchannels` in the generated
    /// document, as subchannel number `id`.
    pub fn dump_to_subchannel_json(&self, id: u32) -> (r: JsonValue)
        ensures
            model(r) == subchannel_document(*self, id as int),
    {
        let uri = prefixed("tcp://127.0.0.1:", decimal(self.input_port as u64).as_str());
        let mut m = no_members();
        put(&mut m, "type", text_value("dabplus"));
        put(&mut m, "bitrate", number_value(self.bitrate as i64));
        put(&mut m, "id", number_value(id as i64));
        put(&mut m, "protection", number_value(self.protection as i64));
        put(&mut m, "inputproto", text_value("edi"));
        put(&mut m, "inputuri", text_value(uri.as_str()));
        put(&mut m, "buffer-management", text_value("prebuffering"));
        put(&mut m, "buffer", number_value(40));
        put(&mut m, "prebuffering", number_value(20));
        assert(member_models(m@) =~= subchannel_document(*self, id as int)->Object_0);
        object_value(m)
    }

    /// The service identifier in hexadecimal, four digits or more.
    pub fn sid_hex(&self) -> (r: String)
        ensures
            r@ == hex_text(self.sid as nat, 4),
    {
        hex_upper(self.sid, 4)
    }

    /// The extended country code in hexadecimal, two digits.
    pub fn ecc_hex(&self) -> (r: String)
        ensures
            r@ == hex_text(self.ecc as nat, 2),
    {
        hex_upper(self.ecc as u32, 2)
    }
}

impl Config {
    /// The configuration document of the multiplexer for these settings.
    /// `now` is the time of writing as text; it goes into the comment.
    pub fn dump_to_json(&self, now: &str) -> (r: JsonValue)
        requires
            self.services.len() <= u32::MAX,
        ensures
            model(r) == config_document(*self, now@),
    {
        let comment = prefixed("Generated at ", now).concat(" by odr-dabmux-gui");

        let mut general = no_members();
        put(&mut general, "dabmode", number_value(1));
        put(&mut general, "nbframes", number_value(0));
        put(&mut general, "syslog", bool_value(false));
        put(&mut general, "tist", bool_value(self.tist));
        put(&mut general, "tist_offset", number_value(self.tist_offset as i64));
        put(&mut general, "managementport", number_value(12720));
        assert(member_models(general@) =~= general_document(*self)->Object_0);

        let mut remote = no_members();
        put(&mut remote, "telnetport", number_value(12721));
        put(&mut remote, "zmqendpoint", text_value("tcp://lo:12722"));
        assert(member_models(remote@) =~= remote_document()->Object_0);

        let mut ensemble = no_members();
        put(&mut ensemble, "id", number_value(self.ensemble_id as i64));
        put(&mut ensemble, "ecc", number_value(self.ensemble_ecc as i64));
        put(&mut ensemble, "local-time-offset", text_value("auto"));
        put(&mut ensemble, "reconfig-counter", text_value("hash"));
        put(&mut ensemble, "label", text_value(self.ensemble_label.as_str()));
        put(&mut ensemble, "shortlabel", text_value(self.ensemble_shortlabel.as_str()));
        assert(member_models(ensemble@) =~= ensemble_document(*self)->Object_0);

        let mut example = no_members();
        put(&mut example, "protocol", text_value("tcp"));
        put(&mut example, "listenport", number_value(self.output_edi_port as i64));
        assert(member_models(example@) =~= listener_document(*self)->Object_0);
        let mut destinations = no_members();
        put(&mut destinations, "example_tcp", object_value(example));
        assert(member_models(destinations@) =~= seq![("example_tcp"@, listener_document(*self))]);
        let mut edi = no_members();
        put(&mut edi, "destinations", object_value(destinations));
        assert(member_models(edi@) =~= seq![
            ("destinations"@, Json::Object(seq![("example_tcp"@, listener_document(*self))])),
        ]);
        let mut outputs = no_members();
        put(&mut outputs, "throttle", text_value("simul://"));
        put(&mut outputs, "edi", object_value(edi));
        assert(member_models(outputs@) =~= outputs_document(*self)->Object_0);

        let mut root = no_members();
        put(&mut root, "_comment", text_value(comment.as_str()));
        put(&mut root, "general", object_value(general));
        put(&mut root, "remotecontrol", object_value(remote));
        put(&mut root, "ensemble", object_value(ensemble));
        put(&mut root, "services", object_value(section_entries(&self.services, Section::Services)));
        put(
            &mut root,
            "subchannels",
            object_value(section_entries(&self.services, Section::Subchannels)),
        );
        put(
            &mut root,
            "components",
            object_value(section_entries(&self.services, Section::Components)),
        );
        put(&mut root, "outputs", object_value(outputs));
        assert(member_models(root@) =~= config_document(*self, now@)->Object_0);
        object_value(root)
    }

    /// The ensemble identifier in hexadecimal, four digits.
    pub fn ensemble_id_hex(&self) -> (r: String)
        ensures
            r@ == hex_text(self.ensemble_id as nat, 4),
    {
        hex_upper(self.ensemble_id as u32, 4)
    }

    /// The ensemble's extended country code in hexadecimal, two digits.
    pub fn ensemble_ecc_hex(&self) -> (r: String)
        ensures
            r@ == hex_text(self.ensemble_ecc as nat, 2),
    {
        hex_upper(self.ensemble_ecc as u32, 2)
    }
}

impl Default for Config {
    /// The settings of a fresh installation: one placeholder service in a
    /// placeholder ensemble.
    fn default() -> (r: Self)
        ensures
            r.instance_name@ == "CHANGEME"@,
            r.tist,
            r.tist_offset == 0,
            r.ensemble_id == 0x4FFF,
            r.ensemble_ecc == 0xE1,
            r.ensemble_label@ == "OpenDigitalRadio"@,
            r.ensemble_shortlabel@ == "ODR"@,
            r.output_edi_port == 8951,
            r.services@.len() == 1,
            r.services@[0].unique_id@ == "nothing"@,
            r.services@[0].sid == 0x4DAA,
            r.services@[0].ecc == 0xE1,
            r.services@[0].label@ == "nothing"@,
            r.services@[0].shortlabel@ == "no"@,
            r.services@[0].input_port == 9001,
            r.services@[0].bitrate == 128,
            r.services@[0].protection == 2,
    {
        let mut services: Vec<Service> = Vec::new();
        services.push(
            Service {
                unique_id: String::from_str("nothing"),
                sid: 0x4DAA,
                ecc: 0xE1,
                label: String::from_str("nothing"),
                shortlabel: String::from_str("no"),
                input_port: 9001,
                bitrate: 128,
                protection: 2,
            },
        );
        Config {
            instance_name: String::from_str("CHANGEME"),
            tist: true,
            tist_offset: 0,
            ensemble_id: 0x4FFF,
            ensemble_ecc: 0xE1,
            ensemble_label: String::from_str("OpenDigitalRadio"),
            ensemble_shortlabel: String::from_str("ODR"),
            output_edi_port: 8951,
            services,
        }
    }
}

} // verus!
