//! The request builder: from the command line and the chain registry to a
//! deployment request.
//!
//! The arguments are read from left to right. The token after `--gas-price`
//! is its value, whatever it looks like; every other token is a flag or the
//! name of a chain.

use crate::registry::contains_name;
use crate::text::{has_prefix, same_text, starts_with};
use vstd::prelude::*;

verus! {

/// Deploy to every chain of the registry.
pub open spec fn all_flag() -> Seq<char> {
    "--all"@
}

/// Copy the broadcast artifact into the archive.
pub open spec fn copy_flag() -> Seq<char> {
    "--cp-bf"@
}

/// Use the deterministic deployment script.
pub open spec fn deterministic_flag() -> Seq<char> {
    "--deterministic"@
}

/// Broadcast and verify instead of simulating.
pub open spec fn broadcast_flag() -> Seq<char> {
    "--broadcast"@
}

/// Override the gas price with the token that follows.
pub open spec fn gas_price_flag() -> Seq<char> {
    "--gas-price"@
}

/// What marks a token as a flag.
pub open spec fn flag_prefix() -> Seq<char> {
    "--"@
}

/// The chain to deploy to when none is asked for.
pub open spec fn default_chain() -> Seq<char> {
    "sepolia"@
}

/// One of the five flags that the command line knows.
pub open spec fn is_known_flag(token: Seq<char>) -> bool {
    ||| token == all_flag()
    ||| token == copy_flag()
    ||| token == deterministic_flag()
    ||| token == broadcast_flag()
    ||| token == gas_price_flag()
}

/// Index `i` is where the value of a `--gas-price` stands: right after a
/// `--gas-price` that is not itself such a value. `i` may be the length of
/// `args`, where a value is due and none is given.
pub open spec fn is_value_at(args: Seq<Seq<char>>, i: int) -> bool
    decreases i,
{
    &&& 1 <= i <= args.len()
    &&& args[i - 1] == gas_price_flag()
    &&& !is_value_at(args, i - 1)
}

/// The token at index `i` is read as a flag or a chain, not as a value.
pub open spec fn is_token_at(args: Seq<Seq<char>>, i: int) -> bool {
    0 <= i < args.len() && !is_value_at(args, i)
}

/// The flag `flag` stands at index `i`.
pub open spec fn is_flag_at(args: Seq<Seq<char>>, i: int, flag: Seq<char>) -> bool {
    is_token_at(args, i) && args[i] == flag
}

/// The flag `flag` stands somewhere in the first `upto` arguments.
pub open spec fn flag_before(args: Seq<Seq<char>>, flag: Seq<char>, upto: int) -> bool {
    exists|i: int| 0 <= i < upto && is_flag_at(args, i, flag)
}

/// The flag `flag` is given.
pub open spec fn has_flag(args: Seq<Seq<char>>, flag: Seq<char>) -> bool {
    flag_before(args, flag, args.len() as int)
}

/// The name of a chain stands at index `i`.
pub open spec fn is_chain_at(args: Seq<Seq<char>>, i: int) -> bool {
    is_token_at(args, i) && !has_prefix(args[i], flag_prefix())
}

/// A flag that the command line does not know stands at index `i`.
pub open spec fn is_unknown_flag_at(args: Seq<Seq<char>>, i: int) -> bool {
    is_token_at(args, i) && has_prefix(args[i], flag_prefix()) && !is_known_flag(args[i])
}

/// The last argument is a `--gas-price` whose value is missing.
pub open spec fn missing_value(args: Seq<Seq<char>>) -> bool {
    is_value_at(args, args.len() as int)
}

/// The chain names among the first `upto` arguments, in order.
pub open spec fn chain_tokens_before(args: Seq<Seq<char>>, upto: int) -> Seq<Seq<char>>
    decreases upto,
{
    if upto <= 0 {
        Seq::empty()
    } else if is_chain_at(args, upto - 1) {
        chain_tokens_before(args, upto - 1).push(args[upto - 1])
    } else {
        chain_tokens_before(args, upto - 1)
    }
}

/// The chain names among the arguments, in order.
pub open spec fn chain_tokens(args: Seq<Seq<char>>) -> Seq<Seq<char>> {
    chain_tokens_before(args, args.len() as int)
}

/// The unknown flags among the first `upto` arguments, in order.
pub open spec fn unknown_flags_before(args: Seq<Seq<char>>, upto: int) -> Seq<Seq<char>>
    decreases upto,
{
    if upto <= 0 {
        Seq::empty()
    } else if is_unknown_flag_at(args, upto - 1) {
        unknown_flags_before(args, upto - 1).push(args[upto - 1])
    } else {
        unknown_flags_before(args, upto - 1)
    }
}

/// The unknown flags among the arguments, in order.
pub open spec fn unknown_flags(args: Seq<Seq<char>>) -> Seq<Seq<char>> {
    unknown_flags_before(args, args.len() as int)
}

/// The value of the last `--gas-price` among the first `upto` arguments.
pub open spec fn gas_price_before(args: Seq<Seq<char>>, upto: int) -> Option<Seq<char>>
    decreases upto,
{
    if upto <= 0 {
        None
    } else if upto <= args.len() && is_value_at(args, upto - 1) {
        Some(args[upto - 1])
    } else {
        gas_price_before(args, upto - 1)
    }
}

/// The gas price that the arguments ask for: the value of the last
/// `--gas-price`.
pub open spec fn gas_price(args: Seq<Seq<char>>) -> Option<Seq<char>> {
    gas_price_before(args, args.len() as int)
}

/// The deployment script to run.
#[derive(Clone, Copy, Debug, PartialEq, Eq, Structural)]
pub enum ScriptVariant {
    Standard,
    Deterministic,
}

impl ScriptVariant {
    /// The file name of the script.
    pub open spec fn file_name_text(self) -> Seq<char> {
        match self {
            ScriptVariant::Standard => "DeployProtocol.s.sol"@,
            ScriptVariant::Deterministic => "DeployDeterministicProtocol.s.sol"@,
        }
    }

    /// The file name of the script.
    pub fn file_name(self) -> (name: &'static str)
        ensures
            name@ == self.file_name_text(),
    {
        match self {
            ScriptVariant::Standard => "DeployProtocol.s.sol",
            ScriptVariant::Deterministic => "DeployDeterministicProtocol.s.sol",
        }
    }

    /// The variant that the `--deterministic` flag selects.
    pub fn from_flag(deterministic: bool) -> (variant: ScriptVariant)
        ensures
            variant == if deterministic {
                ScriptVariant::Deterministic
            } else {
                ScriptVariant::Standard
            },
    {
        if deterministic {
            ScriptVariant::Deterministic
        } else {
            ScriptVariant::Standard
        }
    }
}

/// Why the arguments cannot be read.
#[derive(Clone, Copy, Debug, PartialEq, Eq, Structural)]
pub enum ArgError {
    /// `--gas-price` is the last argument: its value is missing.
    MissingGasPrice,
}

impl ArgError {
    /// The error in words.
    pub fn message(&self) -> (text: String)
        ensures
            text@ == "missing value after --gas-price"@,
    {
        String::from_str("missing value after --gas-price")
    }
}

/// What the command line says, before the registry is consulted.
#[derive(Clone, Debug, PartialEq, Eq)]
pub struct ParsedArgs {
    pub all_chains: bool,
    pub deterministic: bool,
    pub broadcast: bool,
    pub copy_broadcast_file: bool,
    pub gas_price: Option<String>,
    pub chains: Vec<String>,
    pub unknown_flags: Vec<String>,
}

impl ParsedArgs {
    /// These are the options that `args` gives.
    pub open spec fn reads(&self, args: Seq<Seq<char>>) -> bool {
        &&& self.all_chains == has_flag(args, all_flag())
        &&& self.deterministic == has_flag(args, deterministic_flag())
        &&& self.broadcast == has_flag(args, broadcast_flag())
        &&& self.copy_broadcast_file == has_flag(args, copy_flag())
        &&& self.gas_price.deep_view() == gas_price(args)
        &&& self.chains.deep_view() == chain_tokens(args)
        &&& self.unknown_flags.deep_view() == unknown_flags(args)
    }
}

/// The five flags differ from each other, and each begins with the flag
/// prefix.
pub proof fn lemma_flags()
    ensures
        all_flag() != copy_flag(),
        all_flag() != deterministic_flag(),
        all_flag() != broadcast_flag(),
        all_flag() != gas_price_flag(),
        copy_flag() != deterministic_flag(),
        copy_flag() != broadcast_flag(),
        copy_flag() != gas_price_flag(),
        deterministic_flag() != broadcast_flag(),
        deterministic_flag() != gas_price_flag(),
        broadcast_flag() != gas_price_flag(),
        forall|token: Seq<char>| #[trigger] is_known_flag(token) ==> has_prefix(token, flag_prefix()),
{
    reveal_strlit("--all");
    reveal_strlit("--cp-bf");
    reveal_strlit("--deterministic");
    reveal_strlit("--broadcast");
    reveal_strlit("--gas-price");
    reveal_strlit("--");
    assert("--broadcast"@[2] != "--gas-price"@[2]);
    assert("--all"@.subrange(0, 2) =~= "--"@);
    assert("--cp-bf"@.subrange(0, 2) =~= "--"@);
    assert("--deterministic"@.subrange(0, 2) =~= "--"@);
    assert("--broadcast"@.subrange(0, 2) =~= "--"@);
    assert("--gas-price"@.subrange(0, 2) =~= "--"@);
}

/// A flag stands before `upto + 1` where it stands before `upto` or at `upto`.
proof fn lemma_flag_step(args: Seq<Seq<char>>, upto: int)
    ensures
        forall|flag: Seq<char>| #[trigger]
            flag_before(args, flag, upto + 1) <==> flag_before(args, flag, upto) || is_flag_at(
                args,
                upto,
                flag,
            ),
{
    assert forall|flag: Seq<char>| #[trigger]
        flag_before(args, flag, upto + 1) <==> flag_before(args, flag, upto) || is_flag_at(
            args,
            upto,
            flag,
        ) by {
        if flag_before(args, flag, upto + 1) {
            let i = choose|i: int| 0 <= i < upto + 1 && is_flag_at(args, i, flag);
            if i < upto {
                assert(flag_before(args, flag, upto));
            }
        }
        if is_flag_at(args, upto, flag) {
            assert(0 <= upto);
            assert(flag_before(args, flag, upto + 1));
        }
        if flag_before(args, flag, upto) {
            let i = choose|i: int| 0 <= i < upto && is_flag_at(args, i, flag);
            assert(0 <= i < upto + 1 && is_flag_at(args, i, flag));
        }
    }
}

/// Reads the command-line arguments, the program's name not among them.
/// Fails only where the last argument is a `--gas-price` without its value.
pub fn parse_args(args: &Vec<String>) -> (parsed: Result<ParsedArgs, ArgError>)
    ensures
        match parsed {
            Ok(options) => !missing_value(args.deep_view()) && options.reads(args.deep_view()),
            Err(error) => missing_value(args.deep_view()) && error == ArgError::MissingGasPrice,
        },
{
    let ghost tokens = args.deep_view();
    let mut all_chains = false;
    let mut deterministic = false;
    let mut broadcast = false;
    let mut copy_broadcast_file = false;
    let mut gas: Option<String> = None;
    let mut chains: Vec<String> = Vec::new();
    let mut unknown: Vec<String> = Vec::new();
    let mut i: usize = 0;
    proof {
        lemma_flags();
        assert(chains.deep_view() =~= chain_tokens_before(tokens, 0));
        assert(unknown.deep_view() =~= unknown_flags_before(tokens, 0));
    }
    while i < args.len()
        invariant
            i <= args.len(),
            tokens == args.deep_view(),
            !is_value_at(tokens, i as int),
            all_chains == flag_before(tokens, all_flag(), i as int),
            deterministic == flag_before(tokens, deterministic_flag(), i as int),
            broadcast == flag_before(tokens, broadcast_flag(), i as int),
            copy_broadcast_file == flag_before(tokens, copy_flag(), i as int),
            gas.deep_view() == gas_price_before(tokens, i as int),
            chains.deep_view() == chain_tokens_before(tokens, i as int),
            unknown.deep_view() == unknown_flags_before(tokens, i as int),
        decreases args.len() - i,
    {
        let token = args[i].as_str();
        let ghost at = i as int;
        let ghost chains_before = chains.deep_view();
        let ghost unknown_before = unknown.deep_view();
        proof {
            lemma_flags();
            assert(tokens[at] == token@);
            assert(is_token_at(tokens, at));
            lemma_flag_step(tokens, at);
        }
        if same_text(token, "--gas-price") {
            if i + 1 >= args.len() {
                assert(is_value_at(tokens, at + 1));
                return Err(ArgError::MissingGasPrice);
            }
            gas = Some(args[i + 1].clone());
            proof {
                assert(is_known_flag(tokens[at]));
                assert(is_value_at(tokens, at + 1));
                assert(!is_value_at(tokens, at + 2));
                assert(!is_token_at(tokens, at + 1));
                lemma_flag_step(tokens, at + 1);
                assert(tokens[at + 1] == args[at + 1]@);
                assert(gas_price_before(tokens, at + 1) == gas_price_before(tokens, at));
                assert(chain_tokens_before(tokens, at + 1) == chains_before);
                assert(unknown_flags_before(tokens, at + 1) == unknown_before);
            }
            i += 2;
        } else {
            if same_text(token, "--all") {
                all_chains = true;
            } else if same_text(token, "--cp-bf") {
                copy_broadcast_file = true;
            } else if same_text(token, "--deterministic") {
                deterministic = true;
            } else if same_text(token, "--broadcast") {
                broadcast = true;
            } else if starts_with(token, "--") {
                unknown.push(args[i].clone());
                assert(unknown.deep_view() =~= unknown_before.push(token@));
            } else {
                chains.push(args[i].clone());
                assert(chains.deep_view() =~= chains_before.push(token@));
            }
            proof {
                assert(!is_value_at(tokens, at + 1));
                assert(is_known_flag(tokens[at]) ==> has_prefix(tokens[at], flag_prefix()));
            }
            i += 1;
        }
    }
    Ok(
        ParsedArgs {
            all_chains,
            deterministic,
            broadcast,
            copy_broadcast_file,
            gas_price: gas,
            chains,
            unknown_flags: unknown,
        },
    )
}

/// Something the operator is told while the run goes on.
#[derive(Clone, Debug, PartialEq, Eq)]
pub enum Warning {
    /// A flag that the command line does not know; it is passed over.
    UnknownFlag(String),
    /// A chain that was asked for beside `--all`; the registry is used.
    IgnoredChain(String),
    /// A chain that was asked for and that the registry does not hold; it is
    /// dropped.
    UnknownChain(String),
}

/// A warning as a specification sees it.
pub enum WarningView {
    UnknownFlag(Seq<char>),
    IgnoredChain(Seq<char>),
    UnknownChain(Seq<char>),
}

impl View for Warning {
    type V = WarningView;

    open spec fn view(&self) -> WarningView {
        match self {
            Warning::UnknownFlag(flag) => WarningView::UnknownFlag(flag@),
            Warning::IgnoredChain(chain) => WarningView::IgnoredChain(chain@),
            Warning::UnknownChain(chain) => WarningView::UnknownChain(chain@),
        }
    }
}

impl DeepView for Warning {
    type V = WarningView;

    open spec fn deep_view(&self) -> WarningView {
        self@
    }
}

impl WarningView {
    /// The warning in words.
    pub open spec fn message(self) -> Seq<char> {
        match self {
            WarningView::UnknownFlag(flag) => "Unknown flag: "@ + flag,
            WarningView::IgnoredChain(chain) => "Chain "@ + chain
                + " is ignored: deploying to all chains"@,
            WarningView::UnknownChain(chain) => "Chain "@ + chain
                + " is not configured in the TOML file"@,
        }
    }
}

impl Warning {
    /// The warning in words.
    pub fn message(&self) -> (text: String)
        ensures
            text@ == self@.message(),
    {
        match self {
            Warning::UnknownFlag(flag) => {
                let mut text = String::from_str("Unknown flag: ");
                text.append(flag.as_str());
                text
            },
            Warning::IgnoredChain(chain) => {
                let mut text = String::from_str("Chain ");
                text.append(chain.as_str());
                text.append(" is ignored: deploying to all chains");
                text
            },
            Warning::UnknownChain(chain) => {
                let mut text = String::from_str("Chain ");
                text.append(chain.as_str());
                text.append(" is not configured in the TOML file");
                text
            },
        }
    }
}

/// The chains that `registry` holds.
pub open spec fn is_configured(registry: Seq<Seq<char>>) -> spec_fn(Seq<char>) -> bool {
    |chain: Seq<char>| registry.contains(chain)
}

/// The chains that `registry` does not hold.
pub open spec fn is_not_configured(registry: Seq<Seq<char>>) -> spec_fn(Seq<char>) -> bool {
    |chain: Seq<char>| !registry.contains(chain)
}

/// The chains to deploy to. With `--all` the registry, whatever chains were
/// named. Else the named chains that the registry holds, in the order given;
/// and where that leaves none, the default chain alone.
pub open spec fn resolved_chains(
    all_chains: bool,
    requested: Seq<Seq<char>>,
    registry: Seq<Seq<char>>,
) -> Seq<Seq<char>> {
    if all_chains {
        registry
    } else {
        let known = requested.filter(is_configured(registry));
        if known.len() == 0 {
            seq![default_chain()]
        } else {
            known
        }
    }
}

/// The warnings of a run: one for each unknown flag, then one for each chain
/// that was named and is not deployed to: with `--all` every named chain,
/// else those that the registry does not hold.
pub open spec fn warnings_for(
    all_chains: bool,
    unknown: Seq<Seq<char>>,
    requested: Seq<Seq<char>>,
    registry: Seq<Seq<char>>,
) -> Seq<WarningView> {
    unknown.map_values(|flag: Seq<char>| WarningView::UnknownFlag(flag)) + if all_chains {
        requested.map_values(|chain: Seq<char>| WarningView::IgnoredChain(chain))
    } else {
        requested.filter(is_not_configured(registry)).map_values(
            |chain: Seq<char>| WarningView::UnknownChain(chain),
        )
    }
}

/// A normalized deployment request: where to deploy and how.
#[derive(Clone, Debug, PartialEq, Eq)]
pub struct DeploymentRequest {
    pub chains: Vec<String>,
    pub script: ScriptVariant,
    pub broadcast: bool,
    pub gas_price: Option<String>,
    pub copy_broadcast_file: bool,
}

impl DeploymentRequest {
    /// This is the request that `args` make against `registry`.
    pub open spec fn answers(&self, args: Seq<Seq<char>>, registry: Seq<Seq<char>>) -> bool {
        &&& self.chains.deep_view() == resolved_chains(
            has_flag(args, all_flag()),
            chain_tokens(args),
            registry,
        )
        &&& self.script == if has_flag(args, deterministic_flag()) {
            ScriptVariant::Deterministic
        } else {
            ScriptVariant::Standard
        }
        &&& self.broadcast == has_flag(args, broadcast_flag())
        &&& self.gas_price.deep_view() == gas_price(args)
        &&& self.copy_broadcast_file == has_flag(args, copy_flag())
    }
}

/// The warnings that `args` raise against `registry`.
pub open spec fn warnings_of(args: Seq<Seq<char>>, registry: Seq<Seq<char>>) -> Seq<WarningView> {
    warnings_for(has_flag(args, all_flag()), unknown_flags(args), chain_tokens(args), registry)
}

/// A copy of `names`.
fn copy_names(names: &Vec<String>) -> (copy: Vec<String>)
    ensures
        copy.deep_view() == names.deep_view(),
{
    let mut copy: Vec<String> = Vec::new();
    let mut i: usize = 0;
    while i < names.len()
        invariant
            i <= names.len(),
            copy.deep_view() == names.deep_view().take(i as int),
        decreases names.len() - i,
    {
        let ghost before = copy.deep_view();
        copy.push(names[i].clone());
        assert(copy.deep_view() =~= before.push(names[i as int]@));
        assert(names.deep_view().take(i + 1) =~= before.push(names[i as int]@));
        i += 1;
    }
    assert(names.deep_view().take(names.len() as int) =~= names.deep_view());
    copy
}

/// Parts `requested` by the registry: the chains that it holds, and a warning
/// for each that it does not hold.
fn split_by_registry(requested: &Vec<String>, registry: &Vec<String>) -> (parts: (
    Vec<String>,
    Vec<Warning>,
))
    ensures
        parts.0.deep_view() == requested.deep_view().filter(is_configured(registry.deep_view())),
        parts.1.deep_view() == requested.deep_view().filter(
            is_not_configured(registry.deep_view()),
        ).map_values(|chain: Seq<char>| WarningView::UnknownChain(chain)),
{
    let ghost names = requested.deep_view();
    let ghost known_to = is_configured(registry.deep_view());
    let ghost unknown_to = is_not_configured(registry.deep_view());
    let mut known: Vec<String> = Vec::new();
    let mut warnings: Vec<Warning> = Vec::new();
    let mut i: usize = 0;
    proof {
        reveal(Seq::filter);
        assert(names.take(0).filter(known_to) =~= known.deep_view());
        assert(names.take(0).filter(unknown_to).map_values(
            |chain: Seq<char>| WarningView::UnknownChain(chain),
        ) =~= warnings.deep_view());
    }
    while i < requested.len()
        invariant
            i <= requested.len(),
            names == requested.deep_view(),
            known_to == is_configured(registry.deep_view()),
            unknown_to == is_not_configured(registry.deep_view()),
            known.deep_view() == names.take(i as int).filter(known_to),
            warnings.deep_view() == names.take(i as int).filter(unknown_to).map_values(
                |chain: Seq<char>| WarningView::UnknownChain(chain),
            ),
        decreases requested.len() - i,
    {
        let ghost known_before = known.deep_view();
        let ghost warnings_before = warnings.deep_view();
        let chain = &requested[i];
        proof {
            assert(names.take(i + 1) =~= names.take(i as int).push(chain@));
            names.take(i as int).lemma_filter_push(chain@, known_to);
            names.take(i as int).lemma_filter_push(chain@, unknown_to);
        }
        if contains_name(registry, chain.as_str()) {
            known.push(chain.clone());
            assert(known.deep_view() =~= known_before.push(chain@));
        } else {
            warnings.push(Warning::UnknownChain(chain.clone()));
            assert(warnings.deep_view() =~= warnings_before.push(
                WarningView::UnknownChain(chain@),
            ));
            assert(warnings.deep_view() =~= names.take(i + 1).filter(unknown_to).map_values(
                |chain: Seq<char>| WarningView::UnknownChain(chain),
            ));
        }
        i += 1;
    }
    assert(names.take(requested.len() as int) =~= names);
    (known, warnings)
}

/// Resolves what the command line says against the registry: the request, and
/// the warnings to show.
pub fn resolve(options: ParsedArgs, registry: &Vec<String>) -> (resolved: (
    DeploymentRequest,
    Vec<Warning>,
))
    ensures
        resolved.0.chains.deep_view() == resolved_chains(
            options.all_chains,
            options.chains.deep_view(),
            registry.deep_view(),
        ),
        resolved.0.script == if options.deterministic {
            ScriptVariant::Deterministic
        } else {
            ScriptVariant::Standard
        },
        resolved.0.broadcast == options.broadcast,
        resolved.0.gas_price.deep_view() == options.gas_price.deep_view(),
        resolved.0.copy_broadcast_file == options.copy_broadcast_file,
        resolved.1.deep_view() == warnings_for(
            options.all_chains,
            options.unknown_flags.deep_view(),
            options.chains.deep_view(),
            registry.deep_view(),
        ),
{
    let ghost flags = options.unknown_flags.deep_view();
    let ghost requested = options.chains.deep_view();
    let mut warnings: Vec<Warning> = Vec::new();
    let mut i: usize = 0;
    while i < options.unknown_flags.len()
        invariant
            i <= options.unknown_flags.len(),
            flags == options.unknown_flags.deep_view(),
            warnings.deep_view() == flags.take(i as int).map_values(
                |flag: Seq<char>| WarningView::UnknownFlag(flag),
            ),
        decreases options.unknown_flags.len() - i,
    {
        let ghost before = warnings.deep_view();
        warnings.push(Warning::UnknownFlag(options.unknown_flags[i].clone()));
        assert(warnings.deep_view() =~= before.push(WarningView::UnknownFlag(flags[i as int])));
        assert(flags.take(i + 1).map_values(|flag: Seq<char>| WarningView::UnknownFlag(flag))
            =~= before.push(WarningView::UnknownFlag(flags[i as int])));
        i += 1;
    }
    assert(flags.take(flags.len() as int) =~= flags);
    let ghost flag_warnings = warnings.deep_view();
    let chains = if options.all_chains {
        let mut k: usize = 0;
        while k < options.chains.len()
            invariant
                k <= options.chains.len(),
                requested == options.chains.deep_view(),
                warnings.deep_view() == flag_warnings + requested.take(k as int).map_values(
                    |chain: Seq<char>| WarningView::IgnoredChain(chain),
                ),
            decreases options.chains.len() - k,
        {
            let ghost before = warnings.deep_view();
            warnings.push(Warning::IgnoredChain(options.chains[k].clone()));
            assert(warnings.deep_view() =~= before.push(
                WarningView::IgnoredChain(requested[k as int]),
            ));
            assert(flag_warnings + requested.take(k + 1).map_values(
                |chain: Seq<char>| WarningView::IgnoredChain(chain),
            ) =~= before.push(WarningView::IgnoredChain(requested[k as int])));
            k += 1;
        }
        assert(requested.take(requested.len() as int) =~= requested);
        copy_names(registry)
    } else {
        let (mut known, mut dropped) = split_by_registry(&options.chains, registry);
        let ghost dropped_view = dropped.deep_view();
        warnings.append(&mut dropped);
        assert(warnings.deep_view() =~= flag_warnings + dropped_view);
        if known.len() == 0 {
            known.push(String::from_str("sepolia"));
            assert(known.deep_view() =~= seq![default_chain()]);
        }
        known
    };
    let request = DeploymentRequest {
        chains,
        script: ScriptVariant::from_flag(options.deterministic),
        broadcast: options.broadcast,
        gas_price: options.gas_price,
        copy_broadcast_file: options.copy_broadcast_file,
    };
    (request, warnings)
}

/// Builds the deployment request that the command-line arguments make against
/// the chain registry, with the warnings to show. Fails only where the last
/// argument is a `--gas-price` without its value.
pub fn build_request(args: &Vec<String>, registry: &Vec<String>) -> (built: Result<
    (DeploymentRequest, Vec<Warning>),
    ArgError,
>)
    ensures
        match built {
            Ok((request, warnings)) => {
                &&& !missing_value(args.deep_view())
                &&& request.answers(args.deep_view(), registry.deep_view())
                &&& warnings.deep_view() == warnings_of(args.deep_view(), registry.deep_view())
            },
            Err(error) => missing_value(args.deep_view()) && error == ArgError::MissingGasPrice,
        },
{
    match parse_args(args) {
        Ok(options) => Ok(resolve(options, registry)),
        Err(error) => Err(error),
    }
}

/// The chain names before `upto` are the tokens at the chain positions
/// before `upto`.
pub proof fn lemma_chain_tokens(args: Seq<Seq<char>>, upto: int)
    ensures
        forall|i: int|
            0 <= i < upto && #[trigger] is_chain_at(args, i) ==> chain_tokens_before(
                args,
                upto,
            ).contains(args[i]),
        forall|chain: Seq<char>| #[trigger]
            chain_tokens_before(args, upto).contains(chain) ==> exists|i: int|
                0 <= i < upto && is_chain_at(args, i) && args[i] == chain,
    decreases upto,
{
    if upto > 0 {
        let earlier = chain_tokens_before(args, upto - 1);
        let now = chain_tokens_before(args, upto);
        lemma_chain_tokens(args, upto - 1);
        assert forall|i: int| 0 <= i < upto && #[trigger] is_chain_at(args, i) implies now.contains(
            args[i],
        ) by {
            if i == upto - 1 {
                assert(now[now.len() - 1] == args[i]);
            } else {
                let j = choose|j: int| 0 <= j < earlier.len() && earlier[j] == args[i];
                assert(now[j] == args[i]);
            }
        }
        assert forall|chain: Seq<char>| #[trigger] now.contains(chain) implies exists|i: int|
            0 <= i < upto && is_chain_at(args, i) && args[i] == chain by {
            let j = choose|j: int| 0 <= j < now.len() && now[j] == chain;
            if j < earlier.len() {
                assert(earlier[j] == chain);
                assert(earlier.contains(chain));
                let i = choose|i: int| 0 <= i < upto - 1 && is_chain_at(args, i) && args[i] == chain;
                assert(0 <= i < upto && is_chain_at(args, i) && args[i] == chain);
            } else {
                assert(is_chain_at(args, upto - 1) && args[upto - 1] == chain);
            }
        }
    }
}

/// Arguments that name no chain and do not ask for all chains make a request
/// for the default chain alone, whatever the registry holds.
pub proof fn lemma_default_request(args: Seq<Seq<char>>, registry: Seq<Seq<char>>)
    requires
        !has_flag(args, all_flag()),
        forall|i: int| !is_chain_at(args, i),
    ensures
        resolved_chains(has_flag(args, all_flag()), chain_tokens(args), registry) == seq![
            default_chain(),
        ],
{
    lemma_chain_tokens(args, args.len() as int);
    let named = chain_tokens(args);
    if named.len() > 0 {
        assert(named.contains(named[0]));
    }
    named.lemma_filter_len(is_configured(registry));
}

/// With `--all` the request targets the registry as it is, and every chain
/// that the arguments name is answered with a warning that it is ignored.
pub proof fn lemma_all_chains_request(args: Seq<Seq<char>>, registry: Seq<Seq<char>>)
    requires
        has_flag(args, all_flag()),
    ensures
        resolved_chains(has_flag(args, all_flag()), chain_tokens(args), registry) == registry,
        forall|i: int| #[trigger]
            is_chain_at(args, i) ==> warnings_of(args, registry).contains(
                WarningView::IgnoredChain(args[i]),
            ),
{
    lemma_chain_tokens(args, args.len() as int);
    let named = chain_tokens(args);
    let flags = unknown_flags(args).map_values(|flag: Seq<char>| WarningView::UnknownFlag(flag));
    let ignored = named.map_values(|chain: Seq<char>| WarningView::IgnoredChain(chain));
    assert forall|i: int| #[trigger] is_chain_at(args, i) implies warnings_of(
        args,
        registry,
    ).contains(WarningView::IgnoredChain(args[i])) by {
        let j = choose|j: int| 0 <= j < named.len() && named[j] == args[i];
        assert(ignored[j] == WarningView::IgnoredChain(args[i]));
        assert((flags + ignored)[flags.len() + j] == WarningView::IgnoredChain(args[i]));
    }
}

/// Every chain of a request is a chain of the registry, but for the default
/// chain where the arguments do not ask for all chains and name no chain of
/// the registry.
pub proof fn lemma_request_within_registry(args: Seq<Seq<char>>, registry: Seq<Seq<char>>)
    ensures
        forall|chain: Seq<char>| #[trigger]
            resolved_chains(has_flag(args, all_flag()), chain_tokens(args), registry).contains(
                chain,
            ) ==> registry.contains(chain) || (chain == default_chain() && !has_flag(
                args,
                all_flag(),
            ) && chain_tokens(args).filter(is_configured(registry)).len() == 0),
{
    let all = has_flag(args, all_flag());
    let named = chain_tokens(args);
    let known = named.filter(is_configured(registry));
    let chains = resolved_chains(all, named, registry);
    assert forall|chain: Seq<char>| #[trigger] chains.contains(chain) implies registry.contains(
        chain,
    ) || (chain == default_chain() && !all && known.len() == 0) by {
        let j = choose|j: int| 0 <= j < chains.len() && chains[j] == chain;
        if !all && known.len() > 0 {
            named.lemma_filter_pred(is_configured(registry), j);
        }
    }
}

} // verus!
