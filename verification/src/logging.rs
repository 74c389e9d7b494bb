//! The fixed-schema log row appended once per control cycle.
//!
//! Rows hold fixed-point micro-unit values; the unverified writer scales
//! them to engineering units and flushes each row as it is appended.

use vstd::prelude::*;

use crate::sensing::DualReading;

verus! {

/// The column names of a log row, in the order `fields` yields values.
pub const CSV_HEADER: &'static str =
    "epoch_secs,TK1_C,TK2_C,avg_C,elec_drive_mA,self_reported_mA,elec_V,elec_mA,pyro_mA";

/// Relies on `std::time::SystemTime::now` and `duration_since`: the
/// current wall-clock time as whole seconds since the Unix epoch. The
/// result depends on when the call runs, so nothing is promised of it.
/// The body is total: a clock reading earlier than the epoch yields
/// zero, and one too far beyond it saturates.
#[verifier::external_body]
pub(crate) fn now_epoch_seconds() -> i64 {
    match std::time::SystemTime::now().duration_since(std::time::UNIX_EPOCH) {
        Ok(since_epoch) => i64::try_from(since_epoch.as_secs()).unwrap_or(i64::MAX),
        Err(_) => 0,
    }
}

/// One cycle's readings and commands, captured with a timestamp.
#[derive(Clone, Copy, Debug, PartialEq, Eq, Structural)]
pub struct LogRecord {
    /// When the row was captured, in seconds since the Unix epoch.
    pub epoch_secs: i64,
    /// Thermocouple channel 1, in micro-degrees; zero when absent.
    pub tk1_micro: u64,
    /// Thermocouple channel 2, in micro-degrees; channel 1's value when absent.
    pub tk2_micro: u64,
    /// The combined working temperature, in micro-degrees.
    pub avg_micro: u64,
    /// The commanded electrode drive current, in micro-milliamps.
    pub elec_drive_micro_ma: u64,
    /// The drive current the source itself reported, in micro-milliamps.
    pub self_reported_micro_ma: u64,
    /// Electrode voltage, in micro-volts.
    pub elec_micro_volts: i64,
    /// Electrode current, in micro-milliamps.
    pub elec_micro_ma: i64,
    /// The pyrometer-loop demand this cycle, in micro-milliamps.
    pub pyro_micro_ma: u64,
}

impl LogRecord {
    /// Every unsigned field fits a signed 64-bit column.
    pub open spec fn wf(self) -> bool {
        &&& self.tk1_micro <= i64::MAX
        &&& self.tk2_micro <= i64::MAX
        &&& self.avg_micro <= i64::MAX
        &&& self.elec_drive_micro_ma <= i64::MAX
        &&& self.self_reported_micro_ma <= i64::MAX
        &&& self.pyro_micro_ma <= i64::MAX
    }

    /// The per-channel values a row records: an absent channel 1 is logged
    /// as zero, an absent channel 2 falls back to channel 1's logged value.
    pub open spec fn spec_tk_columns(reading: DualReading) -> (u64, u64) {
        let tk1 = match reading.ch1 {
            Some(v) => v,
            None => 0u64,
        };
        let tk2 = match reading.ch2 {
            Some(v) => v,
            None => tk1,
        };
        (tk1, tk2)
    }

    /// Capture one cycle's row, stamped with the wall clock.
    pub fn capture(
        reading: DualReading,
        avg_micro: u64,
        elec_drive_micro_ma: u64,
        self_reported_micro_ma: u64,
        elec_micro_volts: i64,
        elec_micro_ma: i64,
        pyro_micro_ma: u64,
    ) -> (record: LogRecord)
        requires
            reading.wf(),
            avg_micro <= i64::MAX,
            elec_drive_micro_ma <= i64::MAX,
            self_reported_micro_ma <= i64::MAX,
            pyro_micro_ma <= i64::MAX,
        ensures
            record.wf(),
            (record.tk1_micro, record.tk2_micro) == Self::spec_tk_columns(reading),
            record.avg_micro == avg_micro,
            record.elec_drive_micro_ma == elec_drive_micro_ma,
            record.self_reported_micro_ma == self_reported_micro_ma,
            record.elec_micro_volts == elec_micro_volts,
            record.elec_micro_ma == elec_micro_ma,
            record.pyro_micro_ma == pyro_micro_ma,
    {
        let tk1 = match reading.ch1 {
            Some(v) => v,
            None => 0,
        };
        let tk2 = match reading.ch2 {
            Some(v) => v,
            None => tk1,
        };
        LogRecord {
            epoch_secs: now_epoch_seconds(),
            tk1_micro: tk1,
            tk2_micro: tk2,
            avg_micro,
            elec_drive_micro_ma,
            self_reported_micro_ma,
            elec_micro_volts,
            elec_micro_ma,
            pyro_micro_ma,
        }
    }

    /// The row's values in column order, ready for the writer.
    pub fn fields(&self) -> (values: Vec<i64>)
        requires
            self.wf(),
        ensures
            values@ =~= seq![
                self.epoch_secs,
                self.tk1_micro as i64,
                self.tk2_micro as i64,
                self.avg_micro as i64,
                self.elec_drive_micro_ma as i64,
                self.self_reported_micro_ma as i64,
                self.elec_micro_volts,
                self.elec_micro_ma,
                self.pyro_micro_ma as i64,
            ],
    {
        let mut values: Vec<i64> = Vec::new();
        values.push(self.epoch_secs);
        values.push(self.tk1_micro as i64);
        values.push(self.tk2_micro as i64);
        values.push(self.avg_micro as i64);
        values.push(self.elec_drive_micro_ma as i64);
        values.push(self.self_reported_micro_ma as i64);
        values.push(self.elec_micro_volts);
        values.push(self.elec_micro_ma);
        values.push(self.pyro_micro_ma as i64);
        values
    }
}

} // verus!
