use vstd::prelude::*;

verus! {

/// Severity of a GELF record, from the most urgent to the least.
#[derive(Debug, Clone, Copy, PartialEq, Eq, Structural)]
pub enum GelfLevel {
    Emergency,
    Alert,
    Critical,
    Error,
    Warning,
    Notice,
    Informational,
    Debugging,
}

impl GelfLevel {
    /// Syslog code of the level: 0 is the most urgent, 7 the least.
    pub open spec fn code_spec(self) -> u8 {
        match self {
            GelfLevel::Emergency => 0,
            GelfLevel::Alert => 1,
            GelfLevel::Critical => 2,
            GelfLevel::Error => 3,
            GelfLevel::Warning => 4,
            GelfLevel::Notice => 5,
            GelfLevel::Informational => 6,
            GelfLevel::Debugging => 7,
        }
    }

    /// Syslog code of the level, as written on the wire.
    #[verifier::when_used_as_spec(code_spec)]
    pub fn code(self) -> (r: u8)
        ensures
            r == self.code_spec(),
    {
        match self {
            GelfLevel::Emergency => 0,
            GelfLevel::Alert => 1,
            GelfLevel::Critical => 2,
            GelfLevel::Error => 3,
            GelfLevel::Warning => 4,
            GelfLevel::Notice => 5,
            GelfLevel::Informational => 6,
            GelfLevel::Debugging => 7,
        }
    }
}

#[verifier::external_type_specification]
pub struct ExLevel(log::Level);

impl From<log::Level> for GelfLevel {
    /// Maps the logging facade's levels onto syslog severities; trace and
    /// debug both become `Debugging`.
    fn from(level: log::Level) -> (r: GelfLevel) {
        match level {
            log::Level::Trace => GelfLevel::Debugging,
            log::Level::Debug => GelfLevel::Debugging,
            log::Level::Info => GelfLevel::Informational,
            log::Level::Warn => GelfLevel::Warning,
            log::Level::Error => GelfLevel::Error,
        }
    }
}

impl vstd::std_specs::convert::FromSpecImpl<log::Level> for GelfLevel {
    open spec fn obeys_from_spec() -> bool {
        true
    }

    open spec fn from_spec(level: log::Level) -> GelfLevel {
        match level {
            log::Level::Trace => GelfLevel::Debugging,
            log::Level::Debug => GelfLevel::Debugging,
            log::Level::Info => GelfLevel::Informational,
            log::Level::Warn => GelfLevel::Warning,
            log::Level::Error => GelfLevel::Error,
        }
    }
}

/// The name of a level, as written in configuration files.
pub open spec fn level_name(l: GelfLevel) -> Seq<char> {
    match l {
        GelfLevel::Emergency => "Emergency"@,
        GelfLevel::Alert => "Alert"@,
        GelfLevel::Critical => "Critical"@,
        GelfLevel::Error => "Error"@,
        GelfLevel::Warning => "Warning"@,
        GelfLevel::Notice => "Notice"@,
        GelfLevel::Informational => "Informational"@,
        GelfLevel::Debugging => "Debugging"@,
    }
}

impl GelfLevel {
    /// The level called `name`, if there is one.
    pub fn from_name(name: &str) -> (r: Option<GelfLevel>)
        ensures
            r matches Some(l) ==> level_name(l) == name@,
            r is None ==> forall|l: GelfLevel| level_name(l) != name@,
    {
        let n = name.to_owned();
        if n == "Emergency".to_owned() {
            Some(GelfLevel::Emergency)
        } else if n == "Alert".to_owned() {
            Some(GelfLevel::Alert)
        } else if n == "Critical".to_owned() {
            Some(GelfLevel::Critical)
        } else if n == "Error".to_owned() {
            Some(GelfLevel::Error)
        } else if n == "Warning".to_owned() {
            Some(GelfLevel::Warning)
        } else if n == "Notice".to_owned() {
            Some(GelfLevel::Notice)
        } else if n == "Informational".to_owned() {
            Some(GelfLevel::Informational)
        } else if n == "Debugging".to_owned() {
            Some(GelfLevel::Debugging)
        } else {
            assert forall|l: GelfLevel| level_name(l) != name@ by {
                match l {
                    GelfLevel::Emergency => {},
                    GelfLevel::Alert => {},
                    GelfLevel::Critical => {},
                    GelfLevel::Error => {},
                    GelfLevel::Warning => {},
                    GelfLevel::Notice => {},
                    GelfLevel::Informational => {},
                    GelfLevel::Debugging => {},
                }
            }
            None
        }
    }

    /// The level with syslog code `code`, if there is one.
    pub fn from_code(code: u8) -> (r: Option<GelfLevel>)
        ensures
            r matches Some(l) ==> l.code() == code,
            r is Some <==> code <= 7,
    {
        match code {
            0 => Some(GelfLevel::Emergency),
            1 => Some(GelfLevel::Alert),
            2 => Some(GelfLevel::Critical),
            3 => Some(GelfLevel::Error),
            4 => Some(GelfLevel::Warning),
            5 => Some(GelfLevel::Notice),
            6 => Some(GelfLevel::Informational),
            7 => Some(GelfLevel::Debugging),
            _ => None,
        }
    }
}

} // verus!
