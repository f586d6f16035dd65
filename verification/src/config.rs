//! Collector configuration, rejected at construction time when invalid:
//! an empty interface name, a zero buffer size, or a confidence threshold
//! beyond the scale are configuration errors.

use vstd::prelude::*;
use crate::analyzer::AnalyzerConfig;

verus! {

/// Configuration for the network collector.  `analyzer.min_quality` is in
/// hundredths, so the valid range is `0 ..= 100`.
pub struct CollectorConfig {
    /// Network interface to monitor
    pub interface: String,
    /// Capture buffer size for the engine
    pub buffer_size: usize,
    /// Channel buffer size for internal communication
    pub channel_buffer_size: usize,
    /// Analyzer configuration
    pub analyzer: AnalyzerConfig,
    /// Whether to enable detailed logging
    pub verbose: bool,
}

/// A configuration every component accepts.
pub open spec fn config_valid(c: CollectorConfig) -> bool {
    c.interface@.len() > 0 && c.buffer_size > 0 && c.channel_buffer_size > 0 && c.analyzer.min_quality <= 100
}

/// The message `validate` reports for the first violated rule.
pub open spec fn validate_error_text(c: CollectorConfig) -> Seq<char> {
    if c.interface@.len() == 0 {
        "Interface cannot be empty"@
    } else if c.buffer_size == 0 {
        "Buffer size must be greater than 0"@
    } else if c.channel_buffer_size == 0 {
        "Channel buffer size must be greater than 0"@
    } else {
        "Minimum quality must be between 0.0 and 1.0"@
    }
}

impl Clone for CollectorConfig {
    fn clone(&self) -> (r: Self)
        ensures
            r == *self,
    {
        CollectorConfig {
            interface: self.interface.clone(),
            buffer_size: self.buffer_size,
            channel_buffer_size: self.channel_buffer_size,
            analyzer: self.analyzer.clone(),
            verbose: self.verbose,
        }
    }
}

impl Default for CollectorConfig {
    /// Interface `eth0`, capture buffer 100, channel buffer 1000, default
    /// analyzer settings, quiet.
    fn default() -> (r: Self)
        ensures
            r.interface@ == "eth0"@,
            r.buffer_size == 100,
            r.channel_buffer_size == 1000,
            r.analyzer.enable_tcp && r.analyzer.enable_http && r.analyzer.enable_tls,
            r.analyzer.min_quality == 0,
            !r.verbose,
            config_valid(r),
    {
        proof {
            reveal_strlit("eth0");
        }
        CollectorConfig {
            interface: "eth0".to_owned(),
            buffer_size: 100,
            channel_buffer_size: 1000,
            analyzer: AnalyzerConfig::default(),
            verbose: false,
        }
    }
}

impl CollectorConfig {
    /// Create a new configuration for an interface, with the defaults for
    /// everything else.
    pub fn new(interface: String) -> (r: Self)
        ensures
            r.interface == interface,
            r.buffer_size == 100,
            r.channel_buffer_size == 1000,
            r.analyzer.enable_tcp && r.analyzer.enable_http && r.analyzer.enable_tls,
            r.analyzer.min_quality == 0,
            !r.verbose,
    {
        let mut c = CollectorConfig::default();
        c.interface = interface;
        c
    }

    /// Set the capture buffer size.
    pub fn with_buffer_size(self, size: usize) -> (r: Self)
        ensures
            r == (CollectorConfig { buffer_size: size, ..self }),
    {
        let mut c = self;
        c.buffer_size = size;
        c
    }

    /// Set the channel buffer size.
    pub fn with_channel_buffer_size(self, size: usize) -> (r: Self)
        ensures
            r == (CollectorConfig { channel_buffer_size: size, ..self }),
    {
        let mut c = self;
        c.channel_buffer_size = size;
        c
    }

    /// Set the analyzer configuration.
    pub fn with_analyzer(self, analyzer: AnalyzerConfig) -> (r: Self)
        ensures
            r == (CollectorConfig { analyzer: analyzer, ..self }),
    {
        let mut c = self;
        c.analyzer = analyzer;
        c
    }

    /// Enable or disable verbose logging.
    pub fn with_verbose(self, verbose: bool) -> (r: Self)
        ensures
            r == (CollectorConfig { verbose: verbose, ..self }),
    {
        let mut c = self;
        c.verbose = verbose;
        c
    }

    /// Check the configuration, reporting the first violated rule.
    pub fn validate(&self) -> (r: Result<(), String>)
        ensures
            r is Ok <==> config_valid(*self),
            r matches Err(m) ==> m@ == validate_error_text(*self),
    {
        if self.interface.as_str().unicode_len() == 0 {
            return Err("Interface cannot be empty".to_owned());
        }
        if self.buffer_size == 0 {
            return Err("Buffer size must be greater than 0".to_owned());
        }
        if self.channel_buffer_size == 0 {
            return Err("Channel buffer size must be greater than 0".to_owned());
        }
        if self.analyzer.min_quality > 100 {
            return Err("Minimum quality must be between 0.0 and 1.0".to_owned());
        }
        Ok(())
    }
}

} // verus!
