//! The failure taxonomy shared by all commands.

use vstd::prelude::*;

verus! {

/// Why the configuration file could not be used.
#[derive(Clone, Copy, Debug, PartialEq, Eq, Structural)]
pub enum ConfigError {
    /// No configuration file is present.
    Missing,
    /// The file is present but does not describe a usable configuration.
    Parse,
}

/// How a cloud operation failed.
#[derive(Clone, Copy, Debug, PartialEq, Eq, Structural)]
pub enum ProviderError {
    /// Network trouble or rate limiting: the same request may succeed later.
    Transient,
    /// Invalid image, declined terms, exhausted quota: repeating cannot help.
    Permanent,
}

/// Every way a command can fail.
#[derive(Clone, Copy, Debug, PartialEq, Eq, Structural)]
pub enum KubeLiftError {
    Config(ConfigError),
    Provider(ProviderError),
    /// A local file operation failed, or local state is unreadable.
    Io,
    /// The appliance did not signal readiness within the allowed wait.
    Timeout,
    /// The operator did not accept the marketplace terms.
    UserDeclined,
    /// The operator interrupted the command.
    Cancelled,
    /// An event arrived that does not answer the action last handed out.
    OutOfTurn,
}

impl KubeLiftError {
    /// Only transient provider failures may be answered by trying again.
    pub open spec fn retry_eligible(self) -> bool {
        self == KubeLiftError::Provider(ProviderError::Transient)
    }

    /// The one line that tells the operator what went wrong and what to do.
    pub open spec fn message_of(self) -> Seq<char> {
        match self {
            KubeLiftError::Config(ConfigError::Missing) =>
                "No configuration file was found. Run `kubelift init` to create one."@,
            KubeLiftError::Config(ConfigError::Parse) =>
                "The configuration file is not usable. It must name an image and a location."@,
            KubeLiftError::Provider(ProviderError::Transient) =>
                "The cloud could not be reached or is busy. Run the command again."@,
            KubeLiftError::Provider(ProviderError::Permanent) =>
                "The cloud refused the request. Check the image, its terms and your quota."@,
            KubeLiftError::Io => "A local file could not be read or written."@,
            KubeLiftError::Timeout =>
                "The appliance did not become ready in time. Run `kubelift down` to remove it."@,
            KubeLiftError::UserDeclined =>
                "The marketplace terms were not accepted. Nothing was created."@,
            KubeLiftError::Cancelled =>
                "Interrupted. Run `kubelift down` to remove what was created so far."@,
            KubeLiftError::OutOfTurn => "An event was reported that answers no pending action."@,
        }
    }

    /// The one line that tells the operator what went wrong and what to do.
    pub fn message(&self) -> (line: String)
        ensures
            line@ == self.message_of(),
    {
        let line = match self {
            KubeLiftError::Config(ConfigError::Missing) =>
                "No configuration file was found. Run `kubelift init` to create one.",
            KubeLiftError::Config(ConfigError::Parse) =>
                "The configuration file is not usable. It must name an image and a location.",
            KubeLiftError::Provider(ProviderError::Transient) =>
                "The cloud could not be reached or is busy. Run the command again.",
            KubeLiftError::Provider(ProviderError::Permanent) =>
                "The cloud refused the request. Check the image, its terms and your quota.",
            KubeLiftError::Io => "A local file could not be read or written.",
            KubeLiftError::Timeout =>
                "The appliance did not become ready in time. Run `kubelift down` to remove it.",
            KubeLiftError::UserDeclined =>
                "The marketplace terms were not accepted. Nothing was created.",
            KubeLiftError::Cancelled =>
                "Interrupted. Run `kubelift down` to remove what was created so far.",
            KubeLiftError::OutOfTurn => "An event was reported that answers no pending action.",
        };
        String::from_str(line)
    }

    pub fn is_retry_eligible(&self) -> (eligible: bool)
        ensures
            eligible == self.retry_eligible(),
    {
        match self {
            KubeLiftError::Provider(ProviderError::Transient) => true,
            _ => false,
        }
    }
}

} // verus!
