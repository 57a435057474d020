//! Fixed-layout feature reports.
//!
//! Every command travels as 65 bytes: the report id, a command prefix, a
//! command id, up to 60 argument bytes, zero padding, and a two-byte footer.

use vstd::prelude::*;

verus! {

/// Length of a feature report with its leading report-id byte.
pub const REPORT_LEN: usize = 65;

/// Length of the payload that follows the report id on the wire.
pub const PAYLOAD_LEN: usize = 64;

/// Largest number of argument bytes between the command id and the footer.
pub const MAX_ARGS: usize = 60;

/// The report id of every command.
pub const REPORT_ID: u8 = 0x00;

/// Command prefix of the time-set command.
pub const TIME_SET_PREFIX: u8 = 0x01;

/// Command id of the time-set command.
pub const TIME_SET_COMMAND: u8 = 0x5A;

/// Command prefix of the plain handshake steps.
pub const HANDSHAKE_PREFIX: u8 = 0x04;

/// First byte of the end-of-command marker.
pub const FOOTER_HIGH: u8 = 0xAA;

/// Second byte of the end-of-command marker.
pub const FOOTER_LOW: u8 = 0x55;

/// The bytes of a command: report id, prefix, command id, the arguments,
/// zeros, and the footer in the last two places. There is room for 60
/// argument bytes; what lies beyond is left out.
pub open spec fn frame(prefix: u8, command: u8, args: Seq<u8>) -> Seq<u8> {
    Seq::new(
        65,
        |i: int|
            if i == 1 {
                prefix
            } else if i == 2 {
                command
            } else if 3 <= i < 3 + args.len() && i < 63 {
                args[i - 3]
            } else if i == 63 {
                0xAAu8
            } else if i == 64 {
                0x55u8
            } else {
                0u8
            },
    )
}

/// A feature report ready for the wire, report id included.
#[derive(Debug, PartialEq, Eq)]
pub struct FeatureReportBuffer {
    bytes: Vec<u8>,
}

impl View for FeatureReportBuffer {
    type V = Seq<u8>;

    closed spec fn view(&self) -> Seq<u8> {
        self.bytes@
    }
}

impl Clone for FeatureReportBuffer {
    fn clone(&self) -> (copy: Self)
        ensures
            copy@ == self@,
    {
        proof {
            use_type_invariant(self);
        }
        let bytes = self.bytes.clone();
        assert(bytes@ =~= self.bytes@);
        FeatureReportBuffer { bytes }
    }
}

impl FeatureReportBuffer {
    #[verifier::type_invariant]
    spec fn well_formed(self) -> bool {
        &&& self.bytes@.len() == 65
        &&& self.bytes@[0] == 0x00
        &&& self.bytes@[63] == 0xAA
        &&& self.bytes@[64] == 0x55
    }

    /// Lays out a command with the given prefix, command id and arguments.
    pub fn framed(prefix: u8, command: u8, args: &[u8]) -> (buffer: Self)
        requires
            args@.len() <= MAX_ARGS,
        ensures
            buffer@ == frame(prefix, command, args@),
    {
        let mut bytes: Vec<u8> = Vec::with_capacity(REPORT_LEN);
        bytes.push(REPORT_ID);
        bytes.push(prefix);
        bytes.push(command);
        let mut i: usize = 0;
        while i < args.len()
            invariant
                i <= args@.len() <= MAX_ARGS,
                bytes@.len() == 3 + i,
                bytes@[0] == 0x00,
                bytes@[1] == prefix,
                bytes@[2] == command,
                forall|k: int| 0 <= k < i ==> bytes@[3 + k] == args@[k],
            decreases args@.len() - i,
        {
            bytes.push(args[i]);
            i += 1;
        }
        while bytes.len() < PAYLOAD_LEN - 1
            invariant
                3 + args@.len() <= bytes@.len() <= 63,
                bytes@[0] == 0x00,
                bytes@[1] == prefix,
                bytes@[2] == command,
                forall|k: int| 0 <= k < args@.len() ==> bytes@[3 + k] == args@[k],
                forall|k: int| 3 + args@.len() <= k < bytes@.len() ==> bytes@[k] == 0x00,
            decreases 63 - bytes@.len(),
        {
            bytes.push(0x00);
        }
        bytes.push(FOOTER_HIGH);
        bytes.push(FOOTER_LOW);
        assert(bytes@ =~= frame(prefix, command, args@));
        FeatureReportBuffer { bytes }
    }

    /// The 65 bytes of the report, report id first.
    pub fn as_slice(&self) -> (bytes: &[u8])
        ensures
            bytes@ == self@,
            bytes@.len() == REPORT_LEN,
            bytes@[0] == REPORT_ID,
            bytes@[63] == FOOTER_HIGH,
            bytes@[64] == FOOTER_LOW,
    {
        proof {
            use_type_invariant(self);
        }
        self.bytes.as_slice()
    }

    /// The 64 bytes that follow the report id.
    pub fn payload(&self) -> (bytes: &[u8])
        ensures
            bytes@ == self@.subrange(1, 65),
            bytes@.len() == PAYLOAD_LEN,
    {
        proof {
            use_type_invariant(self);
        }
        vstd::slice::slice_subrange(self.bytes.as_slice(), 1, REPORT_LEN)
    }
}

/// The remainder of a year by 100 with the sign of the year, as machine
/// division gives it: 2025 gives 25, and -5 gives -5.
pub open spec fn year_in_century(year: int) -> int {
    if year >= 0 {
        year % 100
    } else {
        -((-year) % 100)
    }
}

/// A calendar timestamp, field by field, as a time source reports it.
#[derive(Clone, Copy, Debug, PartialEq, Eq)]
pub struct CalendarFields {
    pub year: i32,
    pub month: u32,
    pub day: u32,
    pub hour: u32,
    pub minute: u32,
    pub second: u32,
}

impl CalendarFields {
    /// Each field, the year taken by 100, fits one unsigned byte.
    pub open spec fn encodable(self) -> bool {
        &&& 0 <= year_in_century(self.year as int)
        &&& self.month <= 255
        &&& self.day <= 255
        &&& self.hour <= 255
        &&& self.minute <= 255
        &&& self.second <= 255
    }

    /// The fields name a calendar date and a time of day.
    pub open spec fn valid(self) -> bool {
        &&& 0 <= year_in_century(self.year as int) <= 99
        &&& 1 <= self.month <= 12
        &&& 1 <= self.day <= 31
        &&& self.hour <= 23
        &&& self.minute <= 59
        &&& self.second <= 59
    }

    /// The six argument bytes of the time-set command.
    pub open spec fn args(self) -> Seq<u8> {
        seq![
            year_in_century(self.year as int) as u8,
            self.month as u8,
            self.day as u8,
            self.hour as u8,
            self.minute as u8,
            self.second as u8,
        ]
    }

    /// Tells whether every field fits one unsigned byte.
    pub fn is_encodable(&self) -> (yes: bool)
        ensures
            yes == self.encodable(),
    {
        (self.year >= 0 || self.year % 100 == 0) && self.month <= 255 && self.day <= 255
            && self.hour <= 255 && self.minute <= 255 && self.second <= 255
    }

    /// Tells whether the fields name a calendar date and a time of day.
    pub fn is_valid(&self) -> (yes: bool)
        ensures
            yes == self.valid(),
    {
        (self.year >= 0 || self.year % 100 == 0) && 1 <= self.month && self.month <= 12 && 1
            <= self.day && self.day <= 31 && self.hour <= 23 && self.minute <= 59 && self.second
            <= 59
    }
}

/// The bytes of the time-set command for the given fields.
pub open spec fn time_set_bytes(fields: CalendarFields) -> Seq<u8> {
    frame(0x01, 0x5A, fields.args())
}

/// Encodes the command that sets the device clock to the given fields.
pub fn encode_time_set(fields: &CalendarFields) -> (buffer: FeatureReportBuffer)
    requires
        fields.encodable(),
    ensures
        buffer@ == time_set_bytes(*fields),
        buffer@.len() == 65,
        buffer@[0] == 0x00,
        buffer@[1] == 0x01,
        buffer@[2] == 0x5A,
        buffer@[3] == year_in_century(fields.year as int),
        buffer@[4] == fields.month,
        buffer@[5] == fields.day,
        buffer@[6] == fields.hour,
        buffer@[7] == fields.minute,
        buffer@[8] == fields.second,
        forall|i: int| 9 <= i < 63 ==> buffer@[i] == 0x00,
        buffer@[63] == 0xAA,
        buffer@[64] == 0x55,
{
    // An encodable year below zero is a whole number of centuries.
    let century_year: i32 = if fields.year >= 0 {
        fields.year % 100
    } else {
        0
    };
    let args: [u8; 6] = [
        century_year as u8,
        fields.month as u8,
        fields.day as u8,
        fields.hour as u8,
        fields.minute as u8,
        fields.second as u8,
    ];
    assert(args@ =~= fields.args());
    FeatureReportBuffer::framed(TIME_SET_PREFIX, TIME_SET_COMMAND, args.as_slice())
}


/// Command id of the first handshake step.
pub const FIRST_COMMAND: u8 = 0x18;

/// Command id of the second handshake step.
pub const SECOND_COMMAND: u8 = 0x28;

/// Command id of the last handshake step.
pub const LAST_COMMAND: u8 = 0x02;

/// The stages of the handshake, in the order in which they run.
#[derive(Clone, Copy, Debug, PartialEq, Eq, Structural)]
pub enum Stage {
    /// First handshake step.
    First,
    /// Second handshake step.
    Second,
    /// The time-set command, which carries the calendar fields.
    TimeSet,
    /// Last handshake step.
    Last,
}

impl Stage {
    /// The place of the stage in the handshake, counted from zero.
    pub open spec fn spec_index(self) -> nat {
        match self {
            Stage::First => 0,
            Stage::Second => 1,
            Stage::TimeSet => 2,
            Stage::Last => 3,
        }
    }

    /// The stage that runs after this one, if any.
    pub open spec fn spec_successor(self) -> Option<Stage> {
        match self {
            Stage::First => Some(Stage::Second),
            Stage::Second => Some(Stage::TimeSet),
            Stage::TimeSet => Some(Stage::Last),
            Stage::Last => None,
        }
    }

    /// Whether the device answers the stage's command with a report that has
    /// to be read back before the next command is accepted.
    pub open spec fn spec_expects_response(self) -> bool {
        true
    }

    /// The place of the stage in the handshake, counted from zero.
    pub fn index(self) -> (i: usize)
        ensures
            i == self.spec_index(),
            i < 4,
    {
        match self {
            Stage::First => 0,
            Stage::Second => 1,
            Stage::TimeSet => 2,
            Stage::Last => 3,
        }
    }

    /// The stage at the given place, if there is one.
    pub fn from_index(i: usize) -> (stage: Option<Stage>)
        ensures
            i < 4 <==> stage.is_some(),
            stage matches Some(s) ==> s.spec_index() == i,
    {
        match i {
            0 => Some(Stage::First),
            1 => Some(Stage::Second),
            2 => Some(Stage::TimeSet),
            3 => Some(Stage::Last),
            _ => None,
        }
    }

    /// The stage that runs after this one, if any.
    pub fn successor(self) -> (next: Option<Stage>)
        ensures
            next == self.spec_successor(),
            next matches Some(s) ==> s.spec_index() == self.spec_index() + 1,
            next.is_none() <==> self == Stage::Last,
    {
        match self {
            Stage::First => Some(Stage::Second),
            Stage::Second => Some(Stage::TimeSet),
            Stage::TimeSet => Some(Stage::Last),
            Stage::Last => None,
        }
    }

    /// Whether the device answers the stage's command with a report that has
    /// to be read back before the next command is accepted.
    pub fn expects_response(self) -> (yes: bool)
        ensures
            yes == self.spec_expects_response(),
    {
        true
    }
}

/// The bytes of the command of a stage. The first and the last step carry no
/// arguments, the second carries a one in its seventh argument byte, and the
/// time-set stage carries the calendar fields, which no other stage reads.
pub open spec fn stage_bytes(stage: Stage, fields: CalendarFields) -> Seq<u8> {
    match stage {
        Stage::First => frame(0x04, 0x18, Seq::empty()),
        Stage::Second => frame(0x04, 0x28, seq![0u8, 0u8, 0u8, 0u8, 0u8, 0u8, 1u8]),
        Stage::TimeSet => time_set_bytes(fields),
        Stage::Last => frame(0x04, 0x02, Seq::empty()),
    }
}

/// Encodes the command of a handshake stage.
pub fn encode_handshake_stage(stage: Stage, fields: &CalendarFields) -> (buffer:
    FeatureReportBuffer)
    requires
        stage == Stage::TimeSet ==> fields.encodable(),
    ensures
        buffer@ == stage_bytes(stage, *fields),
        buffer@.len() == 65,
        buffer@[0] == 0x00,
        buffer@[1] == (if stage == Stage::TimeSet { 0x01u8 } else { 0x04u8 }),
        buffer@[63] == 0xAA,
        buffer@[64] == 0x55,
{
    match stage {
        Stage::First => {
            let args: [u8; 0] = [];
            assert(args@ =~= Seq::<u8>::empty());
            FeatureReportBuffer::framed(HANDSHAKE_PREFIX, FIRST_COMMAND, args.as_slice())
        },
        Stage::Second => {
            let args: [u8; 7] = [0, 0, 0, 0, 0, 0, 1];
            assert(args@ =~= seq![0u8, 0u8, 0u8, 0u8, 0u8, 0u8, 1u8]);
            FeatureReportBuffer::framed(HANDSHAKE_PREFIX, SECOND_COMMAND, args.as_slice())
        },
        Stage::TimeSet => encode_time_set(fields),
        Stage::Last => {
            let args: [u8; 0] = [];
            assert(args@ =~= Seq::<u8>::empty());
            FeatureReportBuffer::framed(HANDSHAKE_PREFIX, LAST_COMMAND, args.as_slice())
        },
    }
}

/// Equal calendar fields encode to equal bytes. For encodable fields the
/// converse holds up to the century: equal bytes come from equal months, days,
/// hours, minutes and seconds, and from years with equal remainders by 100.
pub proof fn lemma_time_set_is_deterministic(a: CalendarFields, b: CalendarFields)
    ensures
        a == b ==> time_set_bytes(a) == time_set_bytes(b),
        a.encodable() && b.encodable() && time_set_bytes(a) == time_set_bytes(b) ==> {
            &&& year_in_century(a.year as int) == year_in_century(b.year as int)
            &&& a.month == b.month
            &&& a.day == b.day
            &&& a.hour == b.hour
            &&& a.minute == b.minute
            &&& a.second == b.second
        },
{
    if a.encodable() && b.encodable() && time_set_bytes(a) == time_set_bytes(b) {
        let x = time_set_bytes(a);
        let y = time_set_bytes(b);
        assert(x[3] == y[3] && x[4] == y[4] && x[5] == y[5] && x[6] == y[6] && x[7] == y[7]
            && x[8] == y[8]);
    }
}

/// For fields that name a calendar date and a time of day, the time-set
/// command is 65 bytes: report id, prefix and command id, the six fields in
/// order, zeros, and the footer.
pub proof fn lemma_time_set_layout(fields: CalendarFields)
    requires
        fields.valid(),
    ensures
        fields.encodable(),
        time_set_bytes(fields).len() == 65,
        time_set_bytes(fields)[0] == 0x00,
        time_set_bytes(fields)[1] == 0x01,
        time_set_bytes(fields)[2] == 0x5A,
        time_set_bytes(fields)[3] == year_in_century(fields.year as int),
        time_set_bytes(fields)[4] == fields.month,
        time_set_bytes(fields)[5] == fields.day,
        time_set_bytes(fields)[6] == fields.hour,
        time_set_bytes(fields)[7] == fields.minute,
        time_set_bytes(fields)[8] == fields.second,
        forall|i: int| 9 <= i < 63 ==> time_set_bytes(fields)[i] == 0x00,
        time_set_bytes(fields)[63] == 0xAA,
        time_set_bytes(fields)[64] == 0x55,
{
}


} // verus!
