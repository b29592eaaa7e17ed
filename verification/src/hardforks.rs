//! Hardfork identifiers, activation conditions and fork schedules.

use vstd::prelude::*;

verus! {

/// Ethereum hardforks, in activation order.
#[derive(Clone, Copy, Debug, PartialEq, Eq, Structural)]
pub enum EthereumHardfork {
    /// Frontier.
    Frontier,
    /// Homestead.
    Homestead,
    /// The DAO fork.
    Dao,
    /// Tangerine Whistle.
    Tangerine,
    /// Spurious Dragon.
    SpuriousDragon,
    /// Byzantium.
    Byzantium,
    /// Constantinople.
    Constantinople,
    /// Petersburg.
    Petersburg,
    /// Istanbul.
    Istanbul,
    /// Muir Glacier.
    MuirGlacier,
    /// Berlin.
    Berlin,
    /// London.
    London,
    /// Arrow Glacier.
    ArrowGlacier,
    /// Gray Glacier.
    GrayGlacier,
    /// Paris (the merge).
    Paris,
    /// Shanghai.
    Shanghai,
    /// Cancun.
    Cancun,
    /// Prague.
    Prague,
}

/// KubChain-specific hardfork identifiers, mixed with [`EthereumHardfork`]
/// entries in a chain's hardfork schedule.
#[derive(Clone, Copy, Debug, PartialEq, Eq, Structural)]
pub enum KubHardfork {
    /// Modified voting logic for the PoA consensus phase.
    Erawan,
    /// PoSA consensus activation on mainnet.
    Chaophraya,
    /// PoSA consensus activation on the Bangkok testnet.
    ChaophrayaBangkok,
    /// StakeManager and SlashManager V2 upgrade.
    Lausanne,
    /// SuperNode introduction and V3 contract upgrades.
    Basel,
}

/// A hardfork of a KubChain schedule: an Ethereum fork or a KubChain fork.
#[derive(Clone, Copy, Debug, PartialEq, Eq, Structural)]
pub enum Hardfork {
    /// An Ethereum hardfork.
    Ethereum(EthereumHardfork),
    /// A KubChain hardfork.
    Kub(KubHardfork),
}

/// When a hardfork activates.
#[derive(Clone, Copy, Debug, PartialEq, Eq, Structural)]
pub enum ForkCondition {
    /// Active from the given block number on.
    Block(u64),
    /// Active from the given timestamp on.
    Timestamp(u64),
    /// Never active.
    Never,
}

impl ForkCondition {
    /// Active at `current_block`: a block condition whose block is at or before it.
    pub open spec fn spec_active_at_block(self, current_block: u64) -> bool {
        match self {
            ForkCondition::Block(b) => current_block >= b,
            _ => false,
        }
    }

    /// `current_block` is the activation block of a block condition.
    pub open spec fn spec_transitions_at_block(self, current_block: u64) -> bool {
        match self {
            ForkCondition::Block(b) => current_block == b,
            _ => false,
        }
    }

    /// Whether the fork is active at the given block.
    pub fn active_at_block(&self, current_block: u64) -> (r: bool)
        ensures
            r == self.spec_active_at_block(current_block),
    {
        match self {
            ForkCondition::Block(b) => current_block >= *b,
            _ => false,
        }
    }

    /// Whether the given block is the first block at which the fork is active.
    pub fn transitions_at_block(&self, current_block: u64) -> (r: bool)
        ensures
            r == self.spec_transitions_at_block(current_block),
    {
        match self {
            ForkCondition::Block(b) => current_block == *b,
            _ => false,
        }
    }
}

/// Once a fork is active it stays active at every later block.
pub proof fn lemma_active_monotone(cond: ForkCondition, a: u64, b: u64)
    requires
        a <= b,
        cond.spec_active_at_block(a),
    ensures
        cond.spec_active_at_block(b),
{
}

/// A fork transitions at exactly the block at which it is active for the first time.
pub proof fn lemma_transition_is_first_active_block(cond: ForkCondition, n: u64)
    ensures
        cond.spec_transitions_at_block(n) <==> (cond.spec_active_at_block(n) && (n == 0
            || !cond.spec_active_at_block((n - 1) as u64))),
{
}

/// A chain's hardfork schedule: forks with their activation conditions.
#[derive(Clone, Debug)]
pub struct ChainHardforks {
    /// The forks in schedule order.
    pub forks: Vec<(Hardfork, ForkCondition)>,
}

/// The condition of `fork` in `forks`: that of its last entry, `Never` when absent.
pub open spec fn condition_of(forks: Seq<(Hardfork, ForkCondition)>, fork: Hardfork) -> ForkCondition
    decreases forks.len(),
{
    if forks.len() == 0 {
        ForkCondition::Never
    } else if forks.last().0 == fork {
        forks.last().1
    } else {
        condition_of(forks.drop_last(), fork)
    }
}

impl ChainHardforks {
    /// The schedule with the given forks.
    pub fn new(forks: Vec<(Hardfork, ForkCondition)>) -> (r: Self)
        ensures
            r.forks@ == forks@,
    {
        ChainHardforks { forks }
    }

    /// The condition of a fork in this schedule (`Never` when it is not scheduled).
    pub open spec fn spec_fork(&self, fork: Hardfork) -> ForkCondition {
        condition_of(self.forks@, fork)
    }

    /// The activation condition of `fork`.
    pub fn fork(&self, fork: Hardfork) -> (r: ForkCondition)
        ensures
            r == self.spec_fork(fork),
    {
        let mut i = self.forks.len();
        assert(self.forks@.take(i as int) =~= self.forks@);
        while i > 0
            invariant
                i <= self.forks@.len(),
                condition_of(self.forks@.take(i as int), fork) == condition_of(self.forks@, fork),
            decreases i,
        {
            let entry = self.forks[i - 1];
            assert(self.forks@.take(i as int).last() == entry);
            assert(self.forks@.take(i as int).drop_last() =~= self.forks@.take(i - 1));
            if entry.0 == fork {
                return entry.1;
            }
            i = i - 1;
        }
        assert(self.forks@.take(0) =~= Seq::<(Hardfork, ForkCondition)>::empty());
        ForkCondition::Never
    }

    /// Is the Ethereum fork `fork` active at `block_number`?
    pub open spec fn spec_ethereum_active(&self, fork: EthereumHardfork, block_number: u64) -> bool {
        self.spec_fork(Hardfork::Ethereum(fork)).spec_active_at_block(block_number)
    }

    /// Whether the Ethereum fork `fork` is active at `block_number`.
    pub fn is_ethereum_fork_active_at_block(&self, fork: EthereumHardfork, block_number: u64) -> (r: bool)
        ensures
            r == self.spec_ethereum_active(fork, block_number),
    {
        self.fork(Hardfork::Ethereum(fork)).active_at_block(block_number)
    }
}

/// A hardfork schedule with all forks activated at block 0: Ethereum forks
/// through Arrow Glacier (no Shanghai, Cancun or Prague) and all KubChain forks.
pub fn kub_dev_hardforks() -> (r: ChainHardforks)
    ensures
        r.forks@ == dev_schedule(),
{
    let mut forks: Vec<(Hardfork, ForkCondition)> = Vec::new();
    forks.push((Hardfork::Ethereum(EthereumHardfork::Frontier), ForkCondition::Block(0)));
    forks.push((Hardfork::Ethereum(EthereumHardfork::Homestead), ForkCondition::Block(0)));
    forks.push((Hardfork::Ethereum(EthereumHardfork::Dao), ForkCondition::Block(0)));
    forks.push((Hardfork::Ethereum(EthereumHardfork::Tangerine), ForkCondition::Block(0)));
    forks.push((Hardfork::Ethereum(EthereumHardfork::SpuriousDragon), ForkCondition::Block(0)));
    forks.push((Hardfork::Ethereum(EthereumHardfork::Byzantium), ForkCondition::Block(0)));
    forks.push((Hardfork::Ethereum(EthereumHardfork::Constantinople), ForkCondition::Block(0)));
    forks.push((Hardfork::Ethereum(EthereumHardfork::Petersburg), ForkCondition::Block(0)));
    forks.push((Hardfork::Ethereum(EthereumHardfork::Istanbul), ForkCondition::Block(0)));
    forks.push((Hardfork::Ethereum(EthereumHardfork::MuirGlacier), ForkCondition::Block(0)));
    forks.push((Hardfork::Ethereum(EthereumHardfork::Berlin), ForkCondition::Block(0)));
    forks.push((Hardfork::Ethereum(EthereumHardfork::London), ForkCondition::Block(0)));
    forks.push((Hardfork::Ethereum(EthereumHardfork::ArrowGlacier), ForkCondition::Block(0)));
    forks.push((Hardfork::Kub(KubHardfork::Erawan), ForkCondition::Block(0)));
    forks.push((Hardfork::Kub(KubHardfork::Chaophraya), ForkCondition::Block(0)));
    forks.push((Hardfork::Kub(KubHardfork::ChaophrayaBangkok), ForkCondition::Block(0)));
    forks.push((Hardfork::Kub(KubHardfork::Lausanne), ForkCondition::Block(0)));
    forks.push((Hardfork::Kub(KubHardfork::Basel), ForkCondition::Block(0)));
    assert(forks@ =~= dev_schedule());
    ChainHardforks::new(forks)
}

/// The development schedule: every fork listed by [`kub_dev_hardforks`] at block 0.
pub open spec fn dev_schedule() -> Seq<(Hardfork, ForkCondition)> {
    seq![
        (Hardfork::Ethereum(EthereumHardfork::Frontier), ForkCondition::Block(0)),
        (Hardfork::Ethereum(EthereumHardfork::Homestead), ForkCondition::Block(0)),
        (Hardfork::Ethereum(EthereumHardfork::Dao), ForkCondition::Block(0)),
        (Hardfork::Ethereum(EthereumHardfork::Tangerine), ForkCondition::Block(0)),
        (Hardfork::Ethereum(EthereumHardfork::SpuriousDragon), ForkCondition::Block(0)),
        (Hardfork::Ethereum(EthereumHardfork::Byzantium), ForkCondition::Block(0)),
        (Hardfork::Ethereum(EthereumHardfork::Constantinople), ForkCondition::Block(0)),
        (Hardfork::Ethereum(EthereumHardfork::Petersburg), ForkCondition::Block(0)),
        (Hardfork::Ethereum(EthereumHardfork::Istanbul), ForkCondition::Block(0)),
        (Hardfork::Ethereum(EthereumHardfork::MuirGlacier), ForkCondition::Block(0)),
        (Hardfork::Ethereum(EthereumHardfork::Berlin), ForkCondition::Block(0)),
        (Hardfork::Ethereum(EthereumHardfork::London), ForkCondition::Block(0)),
        (Hardfork::Ethereum(EthereumHardfork::ArrowGlacier), ForkCondition::Block(0)),
        (Hardfork::Kub(KubHardfork::Erawan), ForkCondition::Block(0)),
        (Hardfork::Kub(KubHardfork::Chaophraya), ForkCondition::Block(0)),
        (Hardfork::Kub(KubHardfork::ChaophrayaBangkok), ForkCondition::Block(0)),
        (Hardfork::Kub(KubHardfork::Lausanne), ForkCondition::Block(0)),
        (Hardfork::Kub(KubHardfork::Basel), ForkCondition::Block(0)),
    ]
}

} // verus!
