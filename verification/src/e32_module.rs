//! Parameter store of the emulated radio module and its command protocol.

use crate::hex::{hex_dump, render_hex};
use vstd::prelude::*;

verus! {

/// Serial speed classes of the module, in the order of their three-bit codes.
#[derive(Clone, Copy, Debug, PartialEq, Eq, Structural)]
pub enum UartBps {
    Bps1200,
    Bps2400,
    Bps4800,
    Bps9600,
    Bps19200,
    Bps38400,
    Bps57600,
    Bps115200,
}

/// Air data rate classes of the module, in the order of their three-bit codes.
#[derive(Clone, Copy, Debug, PartialEq, Eq, Structural)]
pub enum AirDataRate {
    Rate300,
    Rate1200,
    Rate2400,
    Rate4800,
    Rate9600,
    Rate19200,
}

/// Operating state of the module, selected by its two mode lines.
#[derive(Clone, Copy, Debug, PartialEq, Eq, Structural)]
pub enum E32State {
    Normal,
    WakeUp,
    PowerSaving,
    Sleep,
}

/// Number of bytes in the parameter record.
pub const CONF_SIZE: usize = 6;

/// First byte of a frame that writes the parameter record.
pub const WRITE_HEAD: u8 = 0xC0;

/// The byte that, sent three times, asks for the parameter record.
pub const READ_BYTE: u8 = 0xC1;

const HEAD: usize = 0;

const ADDH: usize = 1;

const ADDL: usize = 2;

const SPED: usize = 3;

const CHAN: usize = 4;

const OPTION: usize = 5;

/// The air data rate that a speed byte selects: its bits 0 to 2, where the
/// three highest codes all stand for the fastest rate.
pub open spec fn air_data_rate_of(sped: u8) -> AirDataRate {
    let class = sped % 8;
    if class == 0 {
        AirDataRate::Rate300
    } else if class == 1 {
        AirDataRate::Rate1200
    } else if class == 2 {
        AirDataRate::Rate2400
    } else if class == 3 {
        AirDataRate::Rate4800
    } else if class == 4 {
        AirDataRate::Rate9600
    } else {
        AirDataRate::Rate19200
    }
}

/// The serial speed that a speed byte selects: its bits 3 to 5.
pub open spec fn uart_bps_of(sped: u8) -> UartBps {
    let class = (sped / 8) % 8;
    if class == 0 {
        UartBps::Bps1200
    } else if class == 1 {
        UartBps::Bps2400
    } else if class == 2 {
        UartBps::Bps4800
    } else if class == 3 {
        UartBps::Bps9600
    } else if class == 4 {
        UartBps::Bps19200
    } else if class == 5 {
        UartBps::Bps38400
    } else if class == 6 {
        UartBps::Bps57600
    } else {
        UartBps::Bps115200
    }
}

impl AirDataRate {
    /// The three-bit code of this class.
    pub open spec fn spec_code(self) -> u8 {
        match self {
            AirDataRate::Rate300 => 0,
            AirDataRate::Rate1200 => 1,
            AirDataRate::Rate2400 => 2,
            AirDataRate::Rate4800 => 3,
            AirDataRate::Rate9600 => 4,
            AirDataRate::Rate19200 => 5,
        }
    }

    /// The rate in bits per second.
    pub open spec fn spec_hertz(self) -> u32 {
        match self {
            AirDataRate::Rate300 => 300,
            AirDataRate::Rate1200 => 1200,
            AirDataRate::Rate2400 => 2400,
            AirDataRate::Rate4800 => 4800,
            AirDataRate::Rate9600 => 9600,
            AirDataRate::Rate19200 => 19200,
        }
    }

    /// The three-bit code of this class.
    #[verifier::when_used_as_spec(spec_code)]
    pub fn code(self) -> (c: u8)
        ensures
            c == self.spec_code(),
    {
        match self {
            AirDataRate::Rate300 => 0b000,
            AirDataRate::Rate1200 => 0b001,
            AirDataRate::Rate2400 => 0b010,
            AirDataRate::Rate4800 => 0b011,
            AirDataRate::Rate9600 => 0b100,
            AirDataRate::Rate19200 => 0b101,
        }
    }

    /// The rate in bits per second.
    #[verifier::when_used_as_spec(spec_hertz)]
    pub fn hertz(self) -> (hz: u32)
        ensures
            hz == self.spec_hertz(),
    {
        match self {
            AirDataRate::Rate300 => 300,
            AirDataRate::Rate1200 => 1200,
            AirDataRate::Rate2400 => 2400,
            AirDataRate::Rate4800 => 4800,
            AirDataRate::Rate9600 => 9600,
            AirDataRate::Rate19200 => 19200,
        }
    }
}

impl UartBps {
    /// The three-bit code of this class.
    pub open spec fn spec_code(self) -> u8 {
        match self {
            UartBps::Bps1200 => 0,
            UartBps::Bps2400 => 1,
            UartBps::Bps4800 => 2,
            UartBps::Bps9600 => 3,
            UartBps::Bps19200 => 4,
            UartBps::Bps38400 => 5,
            UartBps::Bps57600 => 6,
            UartBps::Bps115200 => 7,
        }
    }

    /// The speed in bits per second.
    pub open spec fn spec_hertz(self) -> u32 {
        match self {
            UartBps::Bps1200 => 1200,
            UartBps::Bps2400 => 2400,
            UartBps::Bps4800 => 4800,
            UartBps::Bps9600 => 9600,
            UartBps::Bps19200 => 19200,
            UartBps::Bps38400 => 38400,
            UartBps::Bps57600 => 57600,
            UartBps::Bps115200 => 115200,
        }
    }

    /// The three-bit code of this class.
    #[verifier::when_used_as_spec(spec_code)]
    pub fn code(self) -> (c: u8)
        ensures
            c == self.spec_code(),
    {
        match self {
            UartBps::Bps1200 => 0b000,
            UartBps::Bps2400 => 0b001,
            UartBps::Bps4800 => 0b010,
            UartBps::Bps9600 => 0b011,
            UartBps::Bps19200 => 0b100,
            UartBps::Bps38400 => 0b101,
            UartBps::Bps57600 => 0b110,
            UartBps::Bps115200 => 0b111,
        }
    }

    /// The speed in bits per second.
    #[verifier::when_used_as_spec(spec_hertz)]
    pub fn hertz(self) -> (hz: u32)
        ensures
            hz == self.spec_hertz(),
    {
        match self {
            UartBps::Bps1200 => 1200,
            UartBps::Bps2400 => 2400,
            UartBps::Bps4800 => 4800,
            UartBps::Bps9600 => 9600,
            UartBps::Bps19200 => 19200,
            UartBps::Bps38400 => 38400,
            UartBps::Bps57600 => 57600,
            UartBps::Bps115200 => 115200,
        }
    }
}

/// Looks up the air data rate that a speed byte selects.
pub fn decode_air_data_rate(sped: u8) -> (rate: AirDataRate)
    ensures
        rate == air_data_rate_of(sped),
{
    let class: u8 = sped & 0b0000_0111;
    assert(class == sped % 8) by (bit_vector)
        requires
            class == sped & 0b0000_0111,
    ;
    match class {
        0b000 => AirDataRate::Rate300,
        0b001 => AirDataRate::Rate1200,
        0b010 => AirDataRate::Rate2400,
        0b011 => AirDataRate::Rate4800,
        0b100 => AirDataRate::Rate9600,
        _ => AirDataRate::Rate19200,
    }
}

/// Looks up the serial speed that a speed byte selects.
pub fn decode_uart_bps(sped: u8) -> (bps: UartBps)
    ensures
        bps == uart_bps_of(sped),
{
    let class: u8 = (sped >> 3) & 0b0000_0111;
    assert(class == (sped / 8) % 8) by (bit_vector)
        requires
            class == (sped >> 3) & 0b0000_0111,
    ;
    match class {
        0b000 => UartBps::Bps1200,
        0b001 => UartBps::Bps2400,
        0b010 => UartBps::Bps4800,
        0b011 => UartBps::Bps9600,
        0b100 => UartBps::Bps19200,
        0b101 => UartBps::Bps38400,
        0b110 => UartBps::Bps57600,
        _ => UartBps::Bps115200,
    }
}

/// The code of the decoded air data rate is the low three bits of the speed
/// byte, with the codes above five folded onto five; the code of the decoded
/// serial speed is the next three bits as they stand.
pub proof fn lemma_decoded_codes(sped: u8)
    ensures
        air_data_rate_of(sped).spec_code() == (if sped % 8 > 5 {
            5
        } else {
            sped % 8
        }),
        uart_bps_of(sped).spec_code() == (sped / 8) % 8,
{
}

/// The parameter record that a new module holds.
pub open spec fn default_params() -> Seq<u8> {
    seq![0xC0u8, 0x00u8, 0x00u8, 0x1Au8, 0x17u8, 0x44u8]
}

/// The text that answers an accepted write.
pub open spec fn ok_text() -> Seq<char> {
    seq!['O', 'K']
}

/// The text that answers anything that is no command.
pub open spec fn error_text() -> Seq<char> {
    seq!['E', 'R', 'R', 'O', 'R']
}

/// A write command: six bytes, the first of which is the write head.
pub open spec fn is_write_command(command: Seq<u8>, size: usize) -> bool {
    size == CONF_SIZE && command.len() == CONF_SIZE && command[0] == WRITE_HEAD
}

/// A read command: the read byte three times over.
pub open spec fn is_read_command(command: Seq<u8>, size: usize) -> bool {
    size == 3 && command =~= seq![READ_BYTE, READ_BYTE, READ_BYTE]
}

/// The answer to `command` of a module that holds `params`.
pub open spec fn response_to(params: Seq<u8>, command: Seq<u8>, size: usize) -> Seq<char> {
    if is_write_command(command, size) {
        ok_text()
    } else if is_read_command(command, size) {
        hex_dump(params)
    } else {
        error_text()
    }
}

/// The parameter record after `command` reached a module that held `params`.
pub open spec fn params_after(params: Seq<u8>, command: Seq<u8>, size: usize) -> Seq<u8> {
    if is_write_command(command, size) {
        command
    } else {
        params
    }
}

/// The parameter store of the module: the six-byte record, and the two speed
/// classes that its speed byte selects.
pub struct E32Module {
    params_list: [u8; CONF_SIZE],
    air_data_rate: AirDataRate,
    uart_bps: UartBps,
}

impl E32Module {
    #[verifier::type_invariant]
    spec fn in_sync(self) -> bool {
        &&& self.air_data_rate == air_data_rate_of(self.params_list@[SPED as int])
        &&& self.uart_bps == uart_bps_of(self.params_list@[SPED as int])
    }

    /// The parameter record: head, address high, address low, speed,
    /// channel, option.
    pub closed spec fn view(&self) -> Seq<u8> {
        self.params_list@
    }

    /// The speed byte of the record.
    pub open spec fn sped(&self) -> u8 {
        self@[3]
    }

    /// The record always has six bytes.
    pub proof fn lemma_record_len(&self)
        ensures
            self@.len() == CONF_SIZE,
    {
    }

    /// A module with the factory parameters.
    pub fn new() -> (module: E32Module)
        ensures
            module@ == default_params(),
    {
        let mut params_list = [0u8; CONF_SIZE];
        params_list[HEAD] = 0xC0;
        params_list[ADDH] = 0x00;
        params_list[ADDL] = 0x00;
        params_list[SPED] = 0x1A;
        params_list[CHAN] = 0x17;
        params_list[OPTION] = 0x44;
        let sped = params_list[SPED];
        let air_data_rate = decode_air_data_rate(sped);
        let uart_bps = decode_uart_bps(sped);
        assert(params_list@ =~= default_params());
        E32Module { params_list, air_data_rate, uart_bps }
    }

    /// The air data rate that the stored speed byte selects.
    pub fn air_data_rate(&self) -> (rate: AirDataRate)
        ensures
            rate == air_data_rate_of(self.sped()),
    {
        proof {
            use_type_invariant(self);
        }
        self.air_data_rate
    }

    /// The serial speed that the stored speed byte selects.
    pub fn uart_bps(&self) -> (bps: UartBps)
        ensures
            bps == uart_bps_of(self.sped()),
    {
        proof {
            use_type_invariant(self);
        }
        self.uart_bps
    }

    /// Answers one command frame of `size` bytes: a write stores the frame as
    /// the new record, a read renders the record, anything else is refused
    /// and changes nothing.
    pub fn input_command(&mut self, command: &[u8], size: usize) -> (response: String)
        ensures
            response@ == response_to(old(self)@, command@, size),
            final(self)@ == params_after(old(self)@, command@, size),
    {
        let mut buffer = [0u8; CONF_SIZE];
        if size == CONF_SIZE && command.len() == CONF_SIZE && command[0] == WRITE_HEAD {
            self.set_params(command, size);
            assert(command@.subrange(0, CONF_SIZE as int) =~= command@);
            proof {
                reveal_strlit("OK");
            }
            let response = "OK".to_string();
            assert(response@ =~= ok_text());
            response
        } else if size == 3 && command.len() == 3 && command[0] == READ_BYTE && command[1]
            == READ_BYTE && command[2] == READ_BYTE {
            self.get_params(&mut buffer);
            assert(buffer@ =~= self@);
            render_hex(&buffer)
        } else {
            proof {
                reveal_strlit("ERROR");
            }
            let response = "ERROR".to_string();
            assert(response@ =~= error_text());
            response
        }
    }

    /// Stores the first six bytes of `params` as the new record when `size`
    /// is six, and does nothing for any other `size`.
    pub fn set_params(&mut self, params: &[u8], size: usize)
        requires
            size == CONF_SIZE ==> params@.len() >= CONF_SIZE,
        ensures
            final(self)@ == (if size == CONF_SIZE {
                params@.subrange(0, CONF_SIZE as int)
            } else {
                old(self)@
            }),
    {
        if size != CONF_SIZE {
            return ;
        }
        let mut params_list = [0u8; CONF_SIZE];
        for i in 0..size
            invariant
                size == CONF_SIZE,
                params@.len() >= CONF_SIZE,
                forall|k: int| 0 <= k < i ==> params_list@[k] == params@[k],
        {
            params_list[i] = params[i];
        }
        let sped = params_list[SPED];
        let air_data_rate = decode_air_data_rate(sped);
        let uart_bps = decode_uart_bps(sped);
        assert(params_list@ =~= params@.subrange(0, CONF_SIZE as int));
        *self = E32Module { params_list, air_data_rate, uart_bps };
    }

    /// Copies the record into the first six bytes of `buffer`.
    pub fn get_params(&self, buffer: &mut [u8])
        requires
            old(buffer)@.len() >= CONF_SIZE,
        ensures
            final(buffer)@.len() == old(buffer)@.len(),
            final(buffer)@.subrange(0, CONF_SIZE as int) == self@,
            final(buffer)@.subrange(CONF_SIZE as int, old(buffer)@.len() as int) == old(
                buffer,
            )@.subrange(CONF_SIZE as int, old(buffer)@.len() as int),
    {
        for i in 0..CONF_SIZE
            invariant
                buffer@.len() == old(buffer)@.len(),
                buffer@.len() >= CONF_SIZE,
                forall|k: int| 0 <= k < i ==> buffer@[k] == self.params_list@[k],
                forall|k: int| CONF_SIZE <= k < buffer@.len() ==> buffer@[k] == old(buffer)@[k],
        {
            buffer[i] = self.params_list[i];
        }
        assert(buffer@.subrange(0, CONF_SIZE as int) =~= self@);
        assert(buffer@.subrange(CONF_SIZE as int, buffer@.len() as int) =~= old(
            buffer,
        )@.subrange(CONF_SIZE as int, buffer@.len() as int));
    }
}

/// A write frame is answered with the accepting text and becomes the stored
/// record; a read that follows is answered with that same frame rendered in
/// hexadecimal.
pub proof fn lemma_write_then_read(params: Seq<u8>, a: u8, b: u8, c: u8, d: u8, e: u8)
    ensures
        ({
            let frame = seq![WRITE_HEAD, a, b, c, d, e];
            let read = seq![READ_BYTE, READ_BYTE, READ_BYTE];
            &&& response_to(params, frame, 6) == ok_text()
            &&& params_after(params, frame, 6) == frame
            &&& response_to(params_after(params, frame, 6), read, 3) == hex_dump(frame)
            &&& params_after(frame, read, 3) == frame
        }),
{
}

/// Whatever is neither a write nor a read is answered with the refusing text
/// and leaves the stored record as it was.
pub proof fn lemma_refused_changes_nothing(params: Seq<u8>, command: Seq<u8>, size: usize)
    requires
        !is_write_command(command, size),
        !is_read_command(command, size),
    ensures
        response_to(params, command, size) == error_text(),
        params_after(params, command, size) == params,
{
}

} // verus!
