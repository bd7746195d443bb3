//! The fee extension (RFC 8748): asking about and accounting for the fees a
//! registry charges on domain commands.

use vstd::prelude::*;
use vstd::string::*;

use crate::domain::delete::DomainDelete;
use crate::xml::{Extension, Transaction};

verus! {

/// The currencies this client can name in fee extensions.
#[derive(Clone, Copy, Debug, Eq, PartialEq, Structural)]
pub enum Currency {
    Usd,
    Eur,
    Gbp,
}

/// When a fee is applied.
#[derive(Clone, Copy, Debug, Eq, PartialEq, Structural)]
pub enum Applied {
    Immediate,
    Delayed,
}

impl Default for Applied {
    /// Fees apply immediately unless a response says otherwise.
    fn default() -> (r: Self)
        ensures
            r == Applied::Immediate,
    {
        Applied::Immediate
    }
}

/// The commands a `<fee:command>` can name.
#[derive(Clone, Copy, Debug, Eq, PartialEq, Hash, Structural)]
pub enum CommandEnum {
    Create,
    Renew,
    Transfer,
    Restore,
}

/// The `<fee:period>` element: a unit and a value.
#[derive(Clone, Debug)]
pub struct PeriodType {
    unit: String,
    value: u32,
}

impl PeriodType {
    /// The unit, in specifications.
    pub closed spec fn spec_unit(&self) -> String {
        self.unit
    }

    /// The value, in specifications.
    pub closed spec fn spec_value(&self) -> u32 {
        self.value
    }

    /// A period of so many years.
    pub fn years(value: u32) -> (r: Self)
        ensures
            r.spec_unit()@ == "y"@,
            r.spec_value() == value,
    {
        Self { unit: String::from_str("y"), value }
    }

    /// The unit of the period.
    pub fn unit(&self) -> (r: &str)
        ensures
            r@ == self.spec_unit()@,
    {
        self.unit.as_str()
    }

    /// The value of the period.
    pub fn value(&self) -> (r: u32)
        ensures
            r == self.spec_value(),
    {
        self.value
    }
}

/// The `<fee:command>` element: which command fees are asked about, within
/// which launch phase, over which period.
#[derive(Clone, Debug)]
pub struct Command<'a> {
    phase: Option<&'a str>,
    subphase: Option<&'a str>,
    custom_name: Option<&'a str>,
    name: CommandEnum,
    period: Option<PeriodType>,
}

impl<'a> Command<'a> {
    /// The phase, in specifications.
    pub closed spec fn spec_phase(&self) -> Option<&'a str> {
        self.phase
    }

    /// The subphase, in specifications.
    pub closed spec fn spec_subphase(&self) -> Option<&'a str> {
        self.subphase
    }

    /// The custom command name, in specifications.
    pub closed spec fn spec_custom_name(&self) -> Option<&'a str> {
        self.custom_name
    }

    /// The named command, in specifications.
    pub closed spec fn spec_name(&self) -> CommandEnum {
        self.name
    }

    /// The period, in specifications.
    pub closed spec fn spec_period(&self) -> Option<PeriodType> {
        self.period
    }

    /// A bare fee query about one command.
    fn bare(name: CommandEnum) -> (r: Self)
        ensures
            r.spec_name() == name,
            r.spec_phase() is None,
            r.spec_subphase() is None,
            r.spec_custom_name() is None,
            r.spec_period() is None,
    {
        Command { phase: None, subphase: None, custom_name: None, name, period: None }
    }

    /// A fee query about domain creation.
    pub fn create() -> (r: Self)
        ensures
            r.spec_name() == CommandEnum::Create,
            r.spec_phase() is None && r.spec_subphase() is None && r.spec_custom_name() is None
                && r.spec_period() is None,
    {
        Self::bare(CommandEnum::Create)
    }

    /// A fee query about domain renewal.
    pub fn renew() -> (r: Self)
        ensures
            r.spec_name() == CommandEnum::Renew,
            r.spec_phase() is None && r.spec_subphase() is None && r.spec_custom_name() is None
                && r.spec_period() is None,
    {
        Self::bare(CommandEnum::Renew)
    }

    /// A fee query about domain transfer.
    pub fn transfer() -> (r: Self)
        ensures
            r.spec_name() == CommandEnum::Transfer,
            r.spec_phase() is None && r.spec_subphase() is None && r.spec_custom_name() is None
                && r.spec_period() is None,
    {
        Self::bare(CommandEnum::Transfer)
    }

    /// A fee query about domain restoration.
    pub fn restore() -> (r: Self)
        ensures
            r.spec_name() == CommandEnum::Restore,
            r.spec_phase() is None && r.spec_subphase() is None && r.spec_custom_name() is None
                && r.spec_period() is None,
    {
        Self::bare(CommandEnum::Restore)
    }

    /// Narrows the query to a launch phase.
    pub fn with_phase(self, phase: &'a str) -> (r: Self)
        ensures
            r.spec_phase() matches Some(p) && p@ == phase@,
            r.spec_subphase() == self.spec_subphase(),
            r.spec_custom_name() == self.spec_custom_name(),
            r.spec_name() == self.spec_name(),
            r.spec_period() == self.spec_period(),
    {
        Command { phase: Some(phase), ..self }
    }

    /// Narrows the query to a subphase.
    pub fn with_subphase(self, subphase: &'a str) -> (r: Self)
        ensures
            r.spec_subphase() matches Some(p) && p@ == subphase@,
            r.spec_phase() == self.spec_phase(),
            r.spec_custom_name() == self.spec_custom_name(),
            r.spec_name() == self.spec_name(),
            r.spec_period() == self.spec_period(),
    {
        Command { subphase: Some(subphase), ..self }
    }

    /// Names a custom command to ask about.
    pub fn with_custom_name(self, custom_name: &'a str) -> (r: Self)
        ensures
            r.spec_custom_name() matches Some(p) && p@ == custom_name@,
            r.spec_phase() == self.spec_phase(),
            r.spec_subphase() == self.spec_subphase(),
            r.spec_name() == self.spec_name(),
            r.spec_period() == self.spec_period(),
    {
        Command { custom_name: Some(custom_name), ..self }
    }

    /// Sets the period the query is about.
    pub fn with_period(self, period: PeriodType) -> (r: Self)
        ensures
            r.spec_period() matches Some(p) && p == period,
            r.spec_phase() == self.spec_phase(),
            r.spec_subphase() == self.spec_subphase(),
            r.spec_custom_name() == self.spec_custom_name(),
            r.spec_name() == self.spec_name(),
    {
        Command { period: Some(period), ..self }
    }

    /// The launch phase asked about.
    pub fn phase(&self) -> (r: Option<&str>)
        ensures
            r == self.spec_phase(),
    {
        self.phase
    }

    /// The subphase asked about.
    pub fn subphase(&self) -> (r: Option<&str>)
        ensures
            r == self.spec_subphase(),
    {
        self.subphase
    }

    /// The command asked about.
    pub fn command(&self) -> (r: CommandEnum)
        ensures
            r == self.spec_name(),
    {
        self.name
    }
}

/// The `<fee:transfer>` element for transfer queries; it adds nothing to the
/// request.
#[derive(Debug)]
pub struct TransferQuery;

/// Server-specific text explaining why a check did not complete as the
/// client expected.
#[derive(Clone, Debug)]
pub struct ReasonType {
    /// The language of the text, when given.
    pub lang: Option<String>,
    /// The text itself.
    pub description: String,
}

/// The `<fee:delete>` extension for delete commands. The delete command
/// carries no fee data; the extension only declares that the response may
/// carry the credit. Nothing is written into `<extension>` for it.
#[derive(Debug)]
pub struct Delete;

impl Extension for Delete {
    open spec fn xml_spec(&self) -> Seq<char> {
        Seq::empty()
    }

    fn extension_xml(&self) -> (r: String) {
        let r = String::new();
        assert(r@ =~= self.xml_spec());
        r
    }
}

impl<'a> Transaction<Delete> for DomainDelete<'a> {

}

} // verus!
