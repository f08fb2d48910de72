//! The command-line surface of the tool, as plain data: one options
//! struct per subcommand, and the verb that ties them together.

use vstd::prelude::*;

verus! {

/// The top-level command line.
#[derive(Debug)]
pub struct WatsonDiscoveryTool {
    /// A JSON file containing service credentials.
    /// Default is the value of the environment variable WDT_CREDENTIALS_FILE
    /// or "credentials.json" when WDT_CREDENTIALS_FILE is empty.
    pub credentials: Option<String>,
    /// Username of service credentials
    pub username: Option<String>,
    /// Password of service credentials
    pub password: Option<String>,
    /// Base API URL
    pub url: Option<String>,
    /// Debug: show the API request
    pub debug: bool,
    /// The subcommand to run.
    pub verb: Verb,
}

/// Add one or more documents to a collection.
#[derive(Debug)]
pub struct AddDocumentOptions {
    /// Directory or file paths for documents to add.
    pub paths: Vec<String>,
    /// Add document to the youngest collection; default.
    pub youngest: bool,
    /// Add document to the oldest collection.
    pub oldest: bool,
    /// Select collection by id or name.
    pub collection: Option<String>,
}

/// Print out crawler configuration.
#[derive(Debug)]
pub struct CrawlerConfigurationOptions {
    /// Use the youngest collection; default.
    pub youngest: bool,
    /// Use the oldest collection.
    pub oldest: bool,
    /// Select collection by id or name.
    pub collection: Option<String>,
}

/// Create a new collection.
#[derive(Debug)]
pub struct CreateCollectionOptions {
    /// The name for the new collection
    pub collection_name: String,
    /// Using the youngest configuration; default.
    pub youngest: bool,
    /// Using the oldest configuration.
    pub oldest: bool,
    /// Choose configuration by id or name.
    pub configuration: Option<String>,
}

/// Create a new configuration.
#[derive(Debug)]
pub struct CreateConfigurationOptions {
    /// File containing the configuration JSON, "-" for stdin.
    pub configuration: String,
}

/// Create a writable environment.
#[derive(Debug)]
pub struct CreateEnvironmentOptions {
    /// The name for the new environment.
    pub enviroment_name: String,
    /// A description for the new environment.
    pub description: Option<String>,
    /// Wait for the new environment to become active.
    pub wait: bool,
}

/// Delete a collection.
#[derive(Debug)]
pub struct DeleteCollectionOptions {
    /// Delete all collections.
    pub all: bool,
    /// Delete the youngest collection.
    pub youngest: bool,
    /// Delete the oldest collection.
    pub oldest: bool,
    /// Delete collection by id or name.
    pub collection: Option<String>,
}

/// Delete a configuration.
#[derive(Debug)]
pub struct DeleteConfigurationOptions {
    /// Delete all non-system configurations.
    pub all: bool,
    /// Delete the youngest configuration.
    pub youngest: bool,
    /// Delete the oldest configuration.
    pub oldest: bool,
    /// Delete configuration by id or name.
    pub configuration: Option<String>,
}

/// Delete a document.
#[derive(Debug)]
pub struct DeleteDocumentOptions {
    /// From the youngest collection; default.
    pub youngest: bool,
    /// From the oldest collection.
    pub oldest: bool,
    /// Select collection by id or name.
    pub collection: Option<String>,
    /// One or more document ids to delete.
    pub document_id: Vec<String>,
}

/// Delete an environment.
#[derive(Debug)]
pub struct DeleteEnvironmentOptions {
    /// The name of the environment to delete (for safety).
    pub enviroment_name: String,
}

/// Generate a shell command completion script.
#[derive(Debug)]
pub struct GenerateCompletionsOptions {
    /// One of: "bash", "fish", "powershell" or "zsh".
    pub shell: String,
}

/// Query ingestion notices for a collection.
#[derive(Debug)]
pub struct NoticesOptions {
    pub aggregation: Option<String>,
    pub count: u32,
    pub filter: Option<String>,
    pub query: Option<String>,
    pub return_hierarchy: Option<String>,
    pub sort: Option<String>,
    /// Use the youngest collection; default.
    pub youngest: bool,
    /// Use the oldest collection.
    pub oldest: bool,
    /// Select collection by id or name.
    pub collection: Option<String>,
}

/// Displays information about existing resources.
#[derive(Debug)]
pub struct OverviewOptions {
    /// Also display the GUID for each item.
    pub guid: bool,
}

/// Preview conversion and enrichment for a document.
#[derive(Debug)]
pub struct PreviewOptions {
    /// File path for document to preview.
    pub filename: String,
    /// Use the youngest configuration; default.
    pub youngest: bool,
    /// Use the oldest configuration.
    pub oldest: bool,
    /// Select configuration by id or name.
    pub configuration: Option<String>,
}

/// Query documents in a collection.
#[derive(Debug)]
pub struct QueryOptions {
    pub aggregation: Option<String>,
    pub count: u32,
    pub filter: Option<String>,
    pub query: Option<String>,
    pub return_hierarchy: Option<String>,
    pub sort: Option<String>,
    /// Show the youngest collection; default.
    pub youngest: bool,
    /// Show the oldest collection.
    pub oldest: bool,
    /// Select collection by id or name.
    pub collection: Option<String>,
    /// In the system environment.
    pub system: bool,
    /// In the legacy read-only environment, if it exists.
    pub legacy: bool,
    /// In the writable environment; default.
    pub writable: bool,
}

/// Display detailed information about a collection.
#[derive(Debug)]
pub struct ShowCollectionOptions {
    /// Show the youngest collection; default.
    pub youngest: bool,
    /// Show the oldest collection.
    pub oldest: bool,
    /// Select collection by id or name.
    pub collection: Option<String>,
    /// In the system environment.
    pub system: bool,
    /// In the legacy read-only environment, if it exists.
    pub legacy: bool,
    /// In the writable environment; default.
    pub writable: bool,
}

/// Display detailed information about a configuration.
#[derive(Debug)]
pub struct ShowConfigurationOptions {
    /// Show the youngest configuration; default.
    pub youngest: bool,
    /// Show the oldest configuration.
    pub oldest: bool,
    /// Select configuration by id or name.
    pub configuration: Option<String>,
    /// In the system environment.
    pub system: bool,
    /// In the legacy read-only environment, if it exists.
    pub legacy: bool,
    /// In the writable environment; default.
    pub writable: bool,
}

/// Displays status information about one or more documents.
#[derive(Debug)]
pub struct ShowDocumentOptions {
    /// In the youngest collection; default.
    pub youngest: bool,
    /// In the oldest collection.
    pub oldest: bool,
    /// Select collection by id or name.
    pub collection: Option<String>,
    /// One or more document ids to lookup.
    pub document_id: Vec<String>,
}

/// Display detailed information about an environment.
#[derive(Debug)]
pub struct ShowEnvironmentOptions {
    /// Show the system environment.
    pub system: bool,
    /// Show the legacy read-only environment, if it exists.
    pub legacy: bool,
    /// Show the writable environment; default.
    pub writable: bool,
}

/// The subcommands of the tool.
#[derive(Debug)]
pub enum Verb {
    AddDocument(AddDocumentOptions),
    /// Print out crawler configuration.
    CrawlerConfiguration(CrawlerConfigurationOptions),
    /// Create a new collection.
    CreateCollection(CreateCollectionOptions),
    /// Create a new configuration.
    CreateConfiguration(CreateConfigurationOptions),
    /// Create a writable environment.
    CreateEnvironment(CreateEnvironmentOptions),
    /// Delete a collection.
    DeleteCollection(DeleteCollectionOptions),
    /// Delete a configuration.
    DeleteConfiguration(DeleteConfigurationOptions),
    /// Delete a document.
    DeleteDocument(DeleteDocumentOptions),
    /// Delete an environment.
    DeleteEnvironment(DeleteEnvironmentOptions),
    /// Generate a shell command completion script.
    GenerateCompletions(GenerateCompletionsOptions),
    /// Query ingestion notices for a collection.
    Notices(NoticesOptions),
    /// Displays information about existing resources.
    Overview(OverviewOptions),
    /// Preview conversion and enrichment for a document.
    Preview(PreviewOptions),
    /// Query documents in a collection.
    Query(QueryOptions),
    /// Display detailed information about a collection.
    ShowCollection(ShowCollectionOptions),
    /// Display detailed information about a configuration.
    ShowConfiguration(ShowConfigurationOptions),
    /// Displays status information about one or more documents.
    ShowDocument(ShowDocumentOptions),
    /// Display detailed information about an environment.
    ShowEnvironment(ShowEnvironmentOptions),
}

impl Verb {
    /// Every subcommand but shell-completion generation talks to the
    /// remote service, and so needs credentials loaded first.
    pub fn needs_credentials(&self) -> (r: bool)
        ensures
            r == !(self matches Verb::GenerateCompletions(_)),
    {
        match self {
            Verb::GenerateCompletions(_) => false,
            _ => true,
        }
    }
}

/// Clone an optional borrowed string into an owned one.
pub fn optional_string(s: &Option<&str>) -> (r: Option<String>)
    ensures
        match *s {
            Some(x) => r matches Some(v) && v@ == x@,
            None => r is None,
        },
{
    match *s {
        Some(x) => Some(x.to_owned()),
        None => None,
    }
}

} // verus!
