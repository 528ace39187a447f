use vstd::prelude::*;

verus! {

/// Error returned when a configuration value cannot be built.
#[derive(Clone, Debug, PartialEq, Eq)]
pub enum ConfigError {
    /// A field holds a value that the configuration cannot represent; the
    /// message names the field.
    InvalidConfig(String),
}

/// The message carried by the error for an unrepresentable thread count.
pub open spec fn threads_error_message() -> Seq<char> {
    "`threads` must be u32 sized"@
}

/// The thread count after defaulting: zero stands for a single worker.
pub open spec fn defaulted_threads(threads: u32) -> u64 {
    if threads == 0 {
        1
    } else {
        threads as u64
    }
}

/// Narrows a thread count into the stored width, failing instead of truncating.
pub fn narrow_threads(threads: u64) -> (r: Result<u32, ConfigError>)
    ensures
        threads <= u32::MAX ==> r == Ok::<u32, ConfigError>(threads as u32),
        threads > u32::MAX ==> (r matches Err(ConfigError::InvalidConfig(m))
            && m@ == threads_error_message()),
{
    match u32::try_from(threads) {
        Ok(t) => Ok(t),
        Err(_) => {
            let m = "`threads` must be u32 sized".to_string();
            proof {
                reveal_strlit("`threads` must be u32 sized");
            }
            Err(ConfigError::InvalidConfig(m))
        },
    }
}

/// How a consumer connects to the broker cluster and which topics it reads.
#[derive(Clone, Debug, PartialEq, Eq)]
pub struct ConsumerConfig {
    pub bootstrap_servers: Vec<String>,
    pub create_topics: bool,
    pub delete_topics: bool,
    pub group_id: String,
    pub topics: Vec<String>,
    pub threads: u32,
}

/// The content of a `ConsumerConfig`, with strings as character sequences.
pub struct ConsumerConfigView {
    pub bootstrap_servers: Seq<Seq<char>>,
    pub create_topics: bool,
    pub delete_topics: bool,
    pub group_id: Seq<char>,
    pub topics: Seq<Seq<char>>,
    pub threads: u32,
}

impl View for ConsumerConfig {
    type V = ConsumerConfigView;

    open spec fn view(&self) -> ConsumerConfigView {
        ConsumerConfigView {
            bootstrap_servers: self.bootstrap_servers.deep_view(),
            create_topics: self.create_topics,
            delete_topics: self.delete_topics,
            group_id: self.group_id@,
            topics: self.topics.deep_view(),
            threads: self.threads,
        }
    }
}

/// The configuration built from the given inputs: sequences and group id
/// copied as they are, zero threads read as one, topic creation and deletion on.
pub open spec fn built_config(
    bootstrap_servers: Seq<Seq<char>>,
    group_id: Seq<char>,
    threads: u32,
    topics: Seq<Seq<char>>,
) -> ConsumerConfigView {
    ConsumerConfigView {
        bootstrap_servers,
        create_topics: true,
        delete_topics: true,
        group_id,
        topics,
        threads: defaulted_threads(threads) as u32,
    }
}

impl ConsumerConfig {
    /// Builds a configuration from caller values, copying every input.
    pub fn new(
        bootstrap_servers: &Vec<String>,
        group_id: &str,
        threads: u32,
        topics: &Vec<String>,
    ) -> (r: Result<ConsumerConfig, ConfigError>)
        ensures
            r matches Ok(c) && c@ == built_config(
                bootstrap_servers.deep_view(),
                group_id@,
                threads,
                topics.deep_view(),
            ),
    {
        let wide: u64 = if threads == 0 {
            1
        } else {
            threads as u64
        };
        let threads = match narrow_threads(wide) {
            Ok(t) => t,
            Err(e) => {
                return Err(e);
            },
        };
        let servers = bootstrap_servers.clone();
        let topic_list = topics.clone();
        Ok(ConsumerConfig {
            bootstrap_servers: servers,
            create_topics: true,
            delete_topics: true,
            group_id: group_id.to_owned(),
            topics: topic_list,
            threads,
        })
    }
}

/// Building twice from the same inputs gives configurations with equal fields.
pub proof fn lemma_new_deterministic(
    a: ConsumerConfig,
    b: ConsumerConfig,
    bootstrap_servers: Seq<Seq<char>>,
    group_id: Seq<char>,
    threads: u32,
    topics: Seq<Seq<char>>,
)
    requires
        a@ == built_config(bootstrap_servers, group_id, threads, topics),
        b@ == built_config(bootstrap_servers, group_id, threads, topics),
    ensures
        a@ == b@,
{
}

} // verus!
