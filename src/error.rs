use vstd::prelude::*;

verus! {

broadcast use vstd::string::group_string_axioms;

/// The failures the application reports; each carries a detail for the error log.
#[derive(Clone, Debug)]
pub enum Application {
    Config(String),
    Ui(String),
    Network(String),
    JsonParse(String),
    Logging(String),
    Unexpected(String),
}

/// The one-line message shown to the user for each kind of failure.
pub open spec fn friendly(e: Application) -> Seq<char> {
    match e {
        Application::Config(_) => "There was an issue with the application configuration"@,
        Application::Ui(_) => "An error occured in the user interface"@,
        Application::Network(_) => "There was a problem connecting to the server"@,
        Application::JsonParse(_) => "There was an issue processing the server response"@,
        Application::Logging(_) => "There was a problem setting up the application logs"@,
        Application::Unexpected(_) => "An unexpected error occured"@,
    }
}

impl Application {
    /// The message shown to the user for this failure.
    pub fn user_friendly_message(&self) -> (r: String)
        ensures
            r@ == friendly(*self),
    {
        match self {
            Application::Config(_) => "There was an issue with the application configuration".to_string(),
            Application::Ui(_) => "An error occured in the user interface".to_string(),
            Application::Network(_) => "There was a problem connecting to the server".to_string(),
            Application::JsonParse(_) => "There was an issue processing the server response".to_string(),
            Application::Logging(_) => "There was a problem setting up the application logs".to_string(),
            Application::Unexpected(_) => "An unexpected error occured".to_string(),
        }
    }

    /// The detail recorded for this failure.
    pub fn detail(&self) -> (r: &String)
        ensures
            r == match *self {
                Application::Config(d) => d,
                Application::Ui(d) => d,
                Application::Network(d) => d,
                Application::JsonParse(d) => d,
                Application::Logging(d) => d,
                Application::Unexpected(d) => d,
            },
    {
        match self {
            Application::Config(d) => d,
            Application::Ui(d) => d,
            Application::Network(d) => d,
            Application::JsonParse(d) => d,
            Application::Logging(d) => d,
            Application::Unexpected(d) => d,
        }
    }
}

} // verus!
