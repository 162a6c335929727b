//! The replies of the request surface: the sensor list, the answer to a
//! submitted command and the answer to a status read.
use vstd::prelude::*;
use crate::model::{SensorConfig, SensorFields, SensorList, SensorStatus, zero_fields};

verus! {

/// Status code of a successful reply.
pub const STATUS_OK: u16 = 200;

/// Status code of a failed reply.
pub const STATUS_INTERNAL_ERROR: u16 = 500;

/// A reply: a status code and a body of the expected shape, also on failure.
#[derive(Debug, PartialEq, Eq)]
pub struct Reply<T> {
    pub code: u16,
    pub body: T,
}

/// The reply to a submitted command: the command echoed on success, the
/// zero-valued record with a failure code otherwise.
pub open spec fn config_reply_spec(command: SensorFields, published: bool) -> (u16, SensorFields) {
    if published {
        (STATUS_OK, command)
    } else {
        (STATUS_INTERNAL_ERROR, zero_fields())
    }
}

/// The reply to a status read: the cached report when one could be read,
/// the zero-valued record with a failure code when the key is absent or its
/// entry does not decode.
pub open spec fn status_reply_spec(entry: Option<SensorFields>) -> (u16, SensorFields) {
    match entry {
        Some(s) => (STATUS_OK, s),
        None => (STATUS_INTERNAL_ERROR, zero_fields()),
    }
}

/// The names of the addressable sensor modules, in order.
pub open spec fn sensor_names() -> Seq<Seq<char>> {
    seq!["Sensor_Module_A"@, "Sensor_Module_B"@]
}

/// The paths of the addressable sensor modules, in order.
pub open spec fn sensor_paths() -> Seq<Seq<char>> {
    seq!["/sensor/module_A"@, "/sensor/module_B"@]
}

/// The fixed list of addressable sensor modules; it never fails.
pub fn sensor_list() -> (r: Reply<Vec<SensorList>>)
    ensures
        r.code == STATUS_OK,
        r.body@.len() == sensor_names().len(),
        forall|i: int|
            0 <= i < r.body@.len() ==> (#[trigger] r.body@[i]).name@ == sensor_names()[i]
                && r.body@[i].path@ == sensor_paths()[i],
{
    proof {
        reveal_strlit("Sensor_Module_A");
        reveal_strlit("Sensor_Module_B");
        reveal_strlit("/sensor/module_A");
        reveal_strlit("/sensor/module_B");
    }
    let a = SensorList { name: "Sensor_Module_A".to_owned(), path: "/sensor/module_A".to_owned() };
    let b = SensorList { name: "Sensor_Module_B".to_owned(), path: "/sensor/module_B".to_owned() };
    let body = vec![a, b];
    Reply { code: STATUS_OK, body }
}

/// The reply to a command, given whether the bus accepted its publication.
pub fn config_reply(command: SensorConfig, published: bool) -> (r: Reply<SensorConfig>)
    ensures
        (r.code, r.body@) == config_reply_spec(command@, published),
{
    if published {
        Reply { code: STATUS_OK, body: command }
    } else {
        Reply { code: STATUS_INTERNAL_ERROR, body: SensorConfig::default() }
    }
}

/// The reply to a status read, given the decoded cache entry for the key,
/// or `None` when the key has no entry or its entry does not decode.
pub fn status_reply(entry: Option<SensorStatus>) -> (r: Reply<SensorConfig>)
    ensures
        (r.code, r.body@) == status_reply_spec(
            match entry {
                Some(s) => Some(s@),
                None => None,
            },
        ),
{
    match entry {
        Some(s) => Reply { code: STATUS_OK, body: s.into_config() },
        None => Reply { code: STATUS_INTERNAL_ERROR, body: SensorConfig::default() },
    }
}

} // verus!
