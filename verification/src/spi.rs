//! Serial Peripheral Interface
//!
//! What the driver decides from the status register before it touches the
//! data register. Reading the one and reading or writing the other is the
//! caller's part.

use nb::Error as NbError;
use vstd::prelude::*;

verus! {

/// SPI error
#[derive(Clone, Copy, Debug, PartialEq, Eq)]
pub enum Error {
    /// Overrun occurred
    Overrun,
    /// Mode fault occurred
    ModeFault,
    /// CRC error
    Crc,
    /// Not an error of its own: keeps the list open for more.
    _Extensible,
}

/// The bits of the status register that the driver goes by, as they were
/// read for one operation.
#[derive(Clone, Copy, Debug, PartialEq, Eq)]
pub struct Status {
    /// Overrun flag
    pub ovr: bool,
    /// Mode fault flag
    pub modf: bool,
    /// CRC error flag
    pub crcerr: bool,
    /// Receive buffer not empty
    pub rxne: bool,
    /// Transmit buffer empty
    pub txe: bool,
}

impl Status {
    /// The error that the status reports, if any. Where several error flags
    /// are set, overrun goes before mode fault, and mode fault before CRC.
    pub open spec fn fault(self) -> Option<Error> {
        if self.ovr {
            Some(Error::Overrun)
        } else if self.modf {
            Some(Error::ModeFault)
        } else if self.crcerr {
            Some(Error::Crc)
        } else {
            None
        }
    }

    /// What an operation reports that needs the data register to be
    /// `ready`: the error if there is one, else whether it can go ahead.
    pub open spec fn outcome(self, ready: bool) -> Result<(), NbError<Error>> {
        match self.fault() {
            Some(error) => Err(NbError::Other(error)),
            None => if ready {
                Ok(())
            } else {
                Err(NbError::WouldBlock)
            },
        }
    }

    fn decide(&self, ready: bool) -> (result: Result<(), NbError<Error>>)
        ensures
            result == self.outcome(ready),
    {
        if self.ovr {
            Err(NbError::Other(Error::Overrun))
        } else if self.modf {
            Err(NbError::Other(Error::ModeFault))
        } else if self.crcerr {
            Err(NbError::Other(Error::Crc))
        } else if ready {
            Ok(())
        } else {
            Err(NbError::WouldBlock)
        }
    }

    /// Whether a byte can be read. `Ok` means that the receive buffer holds
    /// one and the data register is to be read now.
    pub fn read(&self) -> (result: Result<(), NbError<Error>>)
        ensures
            result == self.outcome(self.rxne),
    {
        self.decide(self.rxne)
    }

    /// Whether a byte can be sent. `Ok` means that the transmit buffer is
    /// empty and the byte is to be written to the data register now.
    pub fn send(&self) -> (result: Result<(), NbError<Error>>)
        ensures
            result == self.outcome(self.txe),
    {
        self.decide(self.txe)
    }
}

} // verus!
