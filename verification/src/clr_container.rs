//! The CLR view of a managed image: its COR20 header.
use vstd::prelude::*;

use crate::cor20_header::{spec_parse_cor20, Cor20Header};
use crate::error::ParseError;
use crate::executable::Executable;

verus! {

/// The parsed CLR data of a managed image.
#[derive(Clone, Copy, Debug)]
pub struct ClrContainer {
    pub cor20_header: Cor20Header,
}

impl ClrContainer {
    /// Parses the COR20 header through data-directory slot fourteen and
    /// wraps it; an absent directory yields `None`.
    pub fn parse(executable: &Executable) -> (r: Result<Option<ClrContainer>, ParseError>)
        requires
            executable.headers_parsed(),
        ensures
            ({
                let h = match r {
                    Ok(Some(c)) => Ok::<Option<Cor20Header>, ParseError>(Some(c.cor20_header)),
                    Ok(None) => Ok::<Option<Cor20Header>, ParseError>(None),
                    Err(e) => Err::<Option<Cor20Header>, ParseError>(e),
                };
                spec_parse_cor20(
                    executable.buffer@,
                    executable.spec_data_directories(),
                    executable.spec_sections(),
                    h,
                )
            }),
    {
        let cor20_header = match Cor20Header::parse(executable)? {
            Some(header) => header,
            None => {
                return Ok(None);
            },
        };
        Ok(Some(ClrContainer { cor20_header }))
    }

    /// The decoded COR20 header.
    pub fn cor20_header(&self) -> (r: &Cor20Header)
        ensures
            r == &self.cor20_header,
    {
        &self.cor20_header
    }
}

} // verus!
