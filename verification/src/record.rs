//! The telemetry record and its canonical serialization.
//!
//! Text fields are held as the bytes of their UTF-8 text, and a
//! measurement's numeric value as the bytes of its decimal rendering, so
//! that the canonical form is a pure function of the record. The canonical
//! serialization is a JSON object with the keys in declaration order and
//! no whitespace; the signature is computed over exactly these bytes.

use vstd::prelude::*;

use crate::json::dec_digits;
use crate::json::push_key_measurements;
use crate::json::push_quoted;
use crate::json::push_u64;
use crate::json::quoted;

verus! {

/// One sensor measurement. `value` holds the decimal text of the reading
/// (for example `21.5`), embedded verbatim in the canonical form.
pub struct Measurement {
    pub parameter: Vec<u8>,
    pub value: Vec<u8>,
    pub unit: Vec<u8>,
}

/// The mathematical model of a measurement.
pub ghost struct MeasurementView {
    pub parameter: Seq<u8>,
    pub value: Seq<u8>,
    pub unit: Seq<u8>,
}

impl View for Measurement {
    type V = MeasurementView;

    open spec fn view(&self) -> MeasurementView {
        MeasurementView {
            parameter: self.parameter@,
            value: self.value@,
            unit: self.unit@,
        }
    }
}

/// One inbound telemetry record. `seq_no` is the per-device counter that
/// the wire format calls `seq`.
pub struct TelemetryRecord {
    pub version: Vec<u8>,
    pub msg_type: Vec<u8>,
    pub device_id: Vec<u8>,
    pub site_id: Vec<u8>,
    pub sent_at: Vec<u8>,
    pub seq_no: u64,
    pub measurements: Vec<Measurement>,
}

/// The mathematical model of a telemetry record.
pub ghost struct TelemetryRecordView {
    pub version: Seq<u8>,
    pub msg_type: Seq<u8>,
    pub device_id: Seq<u8>,
    pub site_id: Seq<u8>,
    pub sent_at: Seq<u8>,
    pub seq_no: u64,
    pub measurements: Seq<MeasurementView>,
}

impl View for TelemetryRecord {
    type V = TelemetryRecordView;

    open spec fn view(&self) -> TelemetryRecordView {
        TelemetryRecordView {
            version: self.version@,
            msg_type: self.msg_type@,
            device_id: self.device_id@,
            site_id: self.site_id@,
            sent_at: self.sent_at@,
            seq_no: self.seq_no,
            measurements: self.measurements@.map_values(|m: Measurement| m@),
        }
    }
}

/// The canonical bytes of one measurement:
/// `{"parameter":<p>,"value":<v>,"unit":<u>}` with `<v>` verbatim.
pub open spec fn canonical_measurement(m: MeasurementView) -> Seq<u8> {
    crate::json::key_parameter() + quoted(m.parameter) + crate::json::key_value() + m.value
        + crate::json::key_unit() + quoted(m.unit) + seq![125u8]
}

/// The canonical bytes of a measurement sequence, comma separated.
pub open spec fn canonical_measurements(ms: Seq<MeasurementView>) -> Seq<u8>
    decreases ms.len(),
{
    if ms.len() == 0 {
        Seq::empty()
    } else if ms.len() == 1 {
        canonical_measurement(ms[0])
    } else {
        canonical_measurements(ms.drop_last()) + seq![44u8] + canonical_measurement(ms.last())
    }
}

/// The canonical bytes of a whole record: a JSON object with the keys
/// `version`, `msg_type`, `device_id`, `site_id`, `sent_at`, `seq`,
/// `measurements`, in that order, without whitespace.
pub open spec fn canonical_record(r: TelemetryRecordView) -> Seq<u8> {
    crate::json::key_version() + quoted(r.version) + crate::json::key_msg_type() + quoted(
        r.msg_type,
    ) + crate::json::key_device_id() + quoted(r.device_id) + crate::json::key_site_id() + quoted(
        r.site_id,
    ) + crate::json::key_sent_at() + quoted(r.sent_at) + crate::json::key_seq() + dec_digits(
        r.seq_no,
    ) + crate::json::key_measurements() + canonical_measurements(r.measurements) + seq![
        93u8,
        125u8,
    ]
}

/// Appends the canonical bytes of one measurement to `out`.
pub fn push_measurement(out: &mut Vec<u8>, m: &Measurement)
    ensures
        final(out)@ == old(out)@ + canonical_measurement(m@),
{
    crate::json::push_key_parameter(out);
    push_quoted(out, &m.parameter);
    crate::json::push_key_value(out);
    crate::json::push_all(out, &m.value);
    crate::json::push_key_unit(out);
    push_quoted(out, &m.unit);
    out.push(125);
    assert(out@ =~= old(out)@ + canonical_measurement(m@));
}

impl TelemetryRecord {
    /// The canonical serialization of this record.
    pub fn canonical_bytes(&self) -> (out: Vec<u8>)
        ensures
            out@ == canonical_record(self@),
    {
        let ghost ms: Seq<MeasurementView> = self@.measurements;
        let mut out: Vec<u8> = Vec::new();
        crate::json::push_key_version(&mut out);
        push_quoted(&mut out, &self.version);
        crate::json::push_key_msg_type(&mut out);
        push_quoted(&mut out, &self.msg_type);
        crate::json::push_key_device_id(&mut out);
        push_quoted(&mut out, &self.device_id);
        crate::json::push_key_site_id(&mut out);
        push_quoted(&mut out, &self.site_id);
        crate::json::push_key_sent_at(&mut out);
        push_quoted(&mut out, &self.sent_at);
        crate::json::push_key_seq(&mut out);
        push_u64(&mut out, self.seq_no);
        push_key_measurements(&mut out);
        let ghost head: Seq<u8> = out@;
        let mut i: usize = 0;
        while i < self.measurements.len()
            invariant
                i <= self.measurements.len(),
                ms == self@.measurements,
                ms.len() == self.measurements.len(),
                forall|j: int| 0 <= j < ms.len() ==> ms[j] == #[trigger] self.measurements@[j]@,
                out@ == head + canonical_measurements(ms.take(i as int)),
            decreases self.measurements.len() - i,
        {
            if i > 0 {
                out.push(44);
            }
            push_measurement(&mut out, &self.measurements[i]);
            proof {
                let t = ms.take(i + 1);
                assert(t.last() == ms[i as int]);
                if i == 0 {
                    assert(t.len() == 1);
                    assert(t[0] == ms[0]);
                    assert(out@ =~= head + canonical_measurements(t));
                } else {
                    assert(t.drop_last() =~= ms.take(i as int));
                    assert(out@ =~= head + canonical_measurements(t));
                }
            }
            i += 1;
        }
        proof {
            assert(ms.take(ms.len() as int) =~= ms);
        }
        out.push(93);
        out.push(125);
        assert(out@ =~= canonical_record(self@));
        out
    }
}

} // verus!
