//! The persistence loop and the message-arrival handler: one reading is
//! taken from the channel and written at a time, strictly in channel order,
//! and a failure of one message or one reading never reaches the next.

use vstd::prelude::*;

use crate::channel::IngestionChannel;
use crate::envpayload::{numeric_fields_ok, DecodeError, EnvSensorReading};
use crate::store::{find_sensor, row_of, PersistenceError, ReadingRow, SensorRecord, SensorStore};
use crate::text::tokens_of;

verus! {

/// What persisting one reading against fixed sensors returns.
pub open spec fn outcome_of(sensors: Seq<SensorRecord>, rd: EnvSensorReading) -> Result<
    u64,
    PersistenceError,
> {
    match find_sensor(sensors, rd.sensor.name@) {
        Some(_) => Ok(1),
        None => Err(PersistenceError::UnknownSensor),
    }
}

/// The rows appended when `rs` is persisted in order against `sensors`: one
/// per reading whose sensor resolves, none for the others.
pub open spec fn persisted_rows(sensors: Seq<SensorRecord>, rs: Seq<EnvSensorReading>) -> Seq<
    ReadingRow,
>
    decreases rs.len(),
{
    if rs.len() == 0 {
        Seq::empty()
    } else {
        persisted_rows(sensors, rs.drop_last()) + match find_sensor(
            sensors,
            rs.last().sensor.name@,
        ) {
            Some(id) => seq![row_of(id, rs.last())],
            None => Seq::<ReadingRow>::empty(),
        }
    }
}

/// Decode one arriving message and hand the reading to the channel. A
/// malformed payload changes nothing and is reported, to be logged and
/// discarded by the caller: it must never stop the pipeline.
pub fn handle_message(chn: &mut IngestionChannel, payload: String) -> (r: Result<(), DecodeError>)
    ensures
        r is Ok <==> tokens_of(payload@).len() >= 5 && numeric_fields_ok(tokens_of(payload@)),
        r is Ok ==> {
            &&& final(chn).queue@.len() == old(chn).queue@.len() + 1
            &&& final(chn).queue@.drop_last() == old(chn).queue@
            &&& final(chn).queue@.last().matches_tokens(tokens_of(payload@))
            &&& final(chn).queue@.last().wf()
        },
        r matches Err(e) ==> final(chn).queue@ == old(chn).queue@ && (e
            == DecodeError::MissingField <==> tokens_of(payload@).len() < 5),
{
    match EnvSensorReading::from_string(payload) {
        Ok(rd) => {
            chn.send(rd);
            proof {
                assert(chn.queue@.drop_last() =~= old(chn).queue@);
            }
            Ok(())
        },
        Err(e) => Err(e),
    }
}

/// Drain the channel into the store, one reading at a time, in channel
/// order. Every queued reading gets exactly one persistence attempt, its
/// outcome is reported in order, and a failed reading never keeps the later
/// ones from being written.
pub fn drain_channel(chn: &mut IngestionChannel, store: &mut SensorStore) -> (outcomes: Vec<
    Result<u64, PersistenceError>,
>)
    ensures
        final(chn).queue@.len() == 0,
        outcomes@.len() == old(chn).queue@.len(),
        forall|k: int|
            0 <= k < outcomes@.len() ==> outcomes@[k] == outcome_of(
                old(store).sensors@,
                old(chn).queue@[k],
            ),
        final(store).sensors@ == old(store).sensors@,
        final(store).readings@ == old(store).readings@ + persisted_rows(
            old(store).sensors@,
            old(chn).queue@,
        ),
        old(store).wf() ==> final(store).wf(),
{
    let ghost q = old(chn).queue@;
    let ghost sensors = old(store).sensors@;
    let mut outcomes: Vec<Result<u64, PersistenceError>> = Vec::new();
    proof {
        assert(q.take(0) =~= Seq::<EnvSensorReading>::empty());
        assert(store.readings@ =~= old(store).readings@ + persisted_rows(sensors, q.take(0)));
    }
    loop
        invariant
            q == old(chn).queue@,
            sensors == old(store).sensors@,
            outcomes@.len() <= q.len(),
            chn.queue@ == q.skip(outcomes@.len() as int),
            store.sensors@ == sensors,
            store.readings@ == old(store).readings@ + persisted_rows(
                sensors,
                q.take(outcomes@.len() as int),
            ),
            forall|k: int|
                0 <= k < outcomes@.len() ==> outcomes@[k] == outcome_of(sensors, q[k]),
            old(store).wf() ==> store.wf(),
        ensures
            chn.queue@.len() == 0,
        decreases chn.queue@.len(),
    {
        if chn.len() == 0 {
            break;
        }
        let ghost k = outcomes@.len() as int;
        proof {
            assert(chn.queue@[0] == q[k]);
        }
        let rd = chn.receive();
        let r = rd.log_to_database(store);
        proof {
            assert(q.take(k + 1).drop_last() =~= q.take(k));
            assert(q.take(k + 1).last() == q[k]);
            match find_sensor(sensors, q[k].sensor.name@) {
                Some(id) => {
                    assert(persisted_rows(sensors, q.take(k + 1)) =~= persisted_rows(
                        sensors,
                        q.take(k),
                    ) + seq![row_of(id, q[k])]);
                    assert(store.readings@ =~= old(store).readings@ + persisted_rows(
                        sensors,
                        q.take(k + 1),
                    ));
                },
                None => {
                    assert(persisted_rows(sensors, q.take(k + 1)) =~= persisted_rows(
                        sensors,
                        q.take(k),
                    ));
                },
            }
            assert(chn.queue@ =~= q.skip(k + 1));
        }
        outcomes.push(r);
    }
    proof {
        assert(q.take(outcomes@.len() as int) =~= q);
    }
    outcomes
}

/// Whether a failed write should be tried again: only a store outage is
/// transient, and only while the attempt budget lasts. An unknown sensor
/// never resolves by retrying; its reading is dropped.
pub fn should_retry(e: &PersistenceError, attempts_made: u64, max_attempts: u64) -> (b: bool)
    ensures
        b == (*e == PersistenceError::StoreUnavailable && attempts_made < max_attempts),
{
    match e {
        PersistenceError::StoreUnavailable => attempts_made < max_attempts,
        PersistenceError::UnknownSensor => false,
    }
}

} // verus!
