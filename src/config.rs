use vstd::prelude::*;

verus! {

/// The stored settings: the URIs of the subscribed feeds, in the order they
/// were added.
pub struct Config {
    pub subscriptions: Vec<String>,
}

impl Default for Config {
    /// No subscriptions.
    fn default() -> (r: Config)
        ensures
            r.subscriptions@.len() == 0,
    {
        Config { subscriptions: Vec::new() }
    }
}

impl Config {
    /// The text of each subscription, in order.
    pub open spec fn uris(&self) -> Seq<Seq<char>> {
        self.subscriptions@.map_values(|s: String| s@)
    }
}

/// Adds a subscription after the existing ones; storing the result is the
/// caller's part.
pub fn update_or_store(config: &mut Config, website: String)
    ensures
        final(config).uris() == old(config).uris().push(website@),
{
    let ghost w = website@;
    config.subscriptions.push(website);
    assert(config.uris() =~= old(config).uris().push(w));
}

/// The configuration to use after a load: the loaded one, or else the
/// default, which then has to be stored (the second component).
pub fn recover_loaded(loaded: Option<Config>) -> (r: (Config, bool))
    ensures
        match loaded {
            Some(c) => r.0 == c && !r.1,
            None => r.0.subscriptions@.len() == 0 && r.1,
        },
{
    match loaded {
        Some(c) => (c, false),
        None => (Config::default(), true),
    }
}

} // verus!
