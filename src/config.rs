use vstd::prelude::*;

use crate::address::Address;

verus! {

/// A deployment environment, each with its own fixed address tables.
#[derive(Clone, Copy, Debug, PartialEq, Eq, Structural)]
pub enum Network {
    Futurenet,
    Mainnet,
    Localnet,
}

/// Strkeys of the aggregator, the vault factory and the stable, native and
/// reward assets of an environment, in that order.
pub open spec fn contract_table(network: Network) -> (Seq<char>, Seq<char>, Seq<char>, Seq<char>, Seq<char>) {
    match network {

        Network::Futurenet => (
            "CDLZFC3SYJYDZT7K67VZ75HPJVIEUVNIXF47ZG2FB2RMQQADUHHZX252"@,
            "CA7QYNF7SOWQ3GLR2BGMZEHXAVIRZA4KVWLTJJFC7MGXUA74P7UJUIGZ"@,
            "CBIELTK6YBZJU5UP2WWQEUCYKLPU6AUNZ2BQ4WWFEIE3USCIHMXQDAMA"@,
            "CDMLFMKMMD7MWZP3FKUBZPVHTUEDLSX4BYGYKH4GCESXYHS3IHQ4EIG4"@,
            "CCKDJ67DZSKSYLWVW5VPYMTVUXM6ZFXE7AQLNWRQJGLTC44MLJMB3S3Y"@,
        ),
        Network::Mainnet => (
            "CXXXXXXXXXXXXXXXXXXXXXXXXXXXXXXXXXXXXXXXXXXXXXXXXXXXXXXXXX"@,
            "CXXXXXXXXXXXXXXXXXXXXXXXXXXXXXXXXXXXXXXXXXXXXXXXXXXXXXXXXX"@,
            "CCW67TSZV3SSS2HXMBQ5JFGCKJNXKZM7UQUWUZPUTHXSTZLEO7SJMI75"@,
            "CDMLFMKMMD7MWZP3FKUBZPVHTUEDLSX4BYGYKH4GCESXYHS3IHQ4EIG4"@,
            "CXXXXXXXXXXXXXXXXXXXXXXXXXXXXXXXXXXXXXXXXXXXXXXXXXXXXXXXXX"@,
        ),
        Network::Localnet => (
            "CAAAAAAAAAAAAAAAAAAAAAAAAAAAAAAAAAAAAAAAAAAAAAAAAAAAAAAD2"@,
            "CAAAAAAAAAAAAAAAAAAAAAAAAAAAAAAAAAAAAAAAAAAAAAAAAAAAAAAE2"@,
            "CAAAAAAAAAAAAAAAAAAAAAAAAAAAAAAAAAAAAAAAAAAAAAAAAAAAAAAF2"@,
            "CDMLFMKMMD7MWZP3FKUBZPVHTUEDLSX4BYGYKH4GCESXYHS3IHQ4EIG4"@,
            "CAAAAAAAAAAAAAAAAAAAAAAAAAAAAAAAAAAAAAAAAAAAAAAAAAAAAAAG2"@,
        ),
    }
}

/// Strkeys of the stable-asset, native-asset, reward-asset and multi-asset
/// vaults of an environment, in that order.
pub open spec fn vault_table(network: Network) -> (Seq<char>, Seq<char>, Seq<char>, Seq<char>) {
    match network {
        Network::Futurenet => (
            "CXXXXXXXXXXXXXXXXXXXXXXXXXXXXXXXXXXXXXXXXXXXXXXXXXXXXXXXXX"@,
            "CXXXXXXXXXXXXXXXXXXXXXXXXXXXXXXXXXXXXXXXXXXXXXXXXXXXXXXXXX"@,
            "CXXXXXXXXXXXXXXXXXXXXXXXXXXXXXXXXXXXXXXXXXXXXXXXXXXXXXXXXX"@,
            "CXXXXXXXXXXXXXXXXXXXXXXXXXXXXXXXXXXXXXXXXXXXXXXXXXXXXXXXXX"@,
        ),
        Network::Mainnet => (
            "CXXXXXXXXXXXXXXXXXXXXXXXXXXXXXXXXXXXXXXXXXXXXXXXXXXXXXXXXX"@,
            "CXXXXXXXXXXXXXXXXXXXXXXXXXXXXXXXXXXXXXXXXXXXXXXXXXXXXXXXXX"@,
            "CXXXXXXXXXXXXXXXXXXXXXXXXXXXXXXXXXXXXXXXXXXXXXXXXXXXXXXXXX"@,
            "CXXXXXXXXXXXXXXXXXXXXXXXXXXXXXXXXXXXXXXXXXXXXXXXXXXXXXXXXX"@,
        ),
        Network::Localnet => (
            "CAAAAAAAAAAAAAAAAAAAAAAAAAAAAAAAAAAAAAAAAAAAAAAAAAAAAAAH2"@,
            "CAAAAAAAAAAAAAAAAAAAAAAAAAAAAAAAAAAAAAAAAAAAAAAAAAAAAAAI2"@,
            "CAAAAAAAAAAAAAAAAAAAAAAAAAAAAAAAAAAAAAAAAAAAAAAAAAAAAAAJ2"@,
            "CAAAAAAAAAAAAAAAAAAAAAAAAAAAAAAAAAAAAAAAAAAAAAAAAAAAAAAK2"@,
        ),
    }
}

/// Fixed addresses of the swap aggregator, the vault factory and the
/// well-known assets of one environment.
#[derive(Clone, Debug)]
pub struct ContractAddresses {
    pub soroswap_aggregator: Address,
    pub defindex_factory: Address,
    pub usdc: Address,
    pub xlm: Address,
    pub aqua: Address,
}

impl ContractAddresses {
    /// The strkeys of the table, in the order of `contract_table`.
    pub open spec fn strkeys(&self) -> (Seq<char>, Seq<char>, Seq<char>, Seq<char>, Seq<char>) {
        (self.soroswap_aggregator@, self.defindex_factory@, self.usdc@, self.xlm@, self.aqua@)
    }

    fn build(a: &str, f: &str, u: &str, x: &str, q: &str) -> (r: ContractAddresses)
        ensures
            r.strkeys() == (a@, f@, u@, x@, q@),
    {
        ContractAddresses {
            soroswap_aggregator: Address::from_strkey(a),
            defindex_factory: Address::from_strkey(f),
            usdc: Address::from_strkey(u),
            xlm: Address::from_strkey(x),
            aqua: Address::from_strkey(q),
        }
    }

    /// The table of the test network.
    pub fn futurenet() -> (r: ContractAddresses)
        ensures
            r.strkeys() == contract_table(Network::Futurenet),
    {
        ContractAddresses::build(
            "CDLZFC3SYJYDZT7K67VZ75HPJVIEUVNIXF47ZG2FB2RMQQADUHHZX252",
            "CA7QYNF7SOWQ3GLR2BGMZEHXAVIRZA4KVWLTJJFC7MGXUA74P7UJUIGZ",
            "CBIELTK6YBZJU5UP2WWQEUCYKLPU6AUNZ2BQ4WWFEIE3USCIHMXQDAMA",
            "CDMLFMKMMD7MWZP3FKUBZPVHTUEDLSX4BYGYKH4GCESXYHS3IHQ4EIG4",
            "CCKDJ67DZSKSYLWVW5VPYMTVUXM6ZFXE7AQLNWRQJGLTC44MLJMB3S3Y",
        )
    }

    /// The table of the production network.
    pub fn mainnet() -> (r: ContractAddresses)
        ensures
            r.strkeys() == contract_table(Network::Mainnet),
    {
        ContractAddresses::build(
            "CXXXXXXXXXXXXXXXXXXXXXXXXXXXXXXXXXXXXXXXXXXXXXXXXXXXXXXXXX",
            "CXXXXXXXXXXXXXXXXXXXXXXXXXXXXXXXXXXXXXXXXXXXXXXXXXXXXXXXXX",
            "CCW67TSZV3SSS2HXMBQ5JFGCKJNXKZM7UQUWUZPUTHXSTZLEO7SJMI75",
            "CDMLFMKMMD7MWZP3FKUBZPVHTUEDLSX4BYGYKH4GCESXYHS3IHQ4EIG4",
            "CXXXXXXXXXXXXXXXXXXXXXXXXXXXXXXXXXXXXXXXXXXXXXXXXXXXXXXXXX",
        )
    }

    /// The table of a local test ledger.
    pub fn localnet() -> (r: ContractAddresses)
        ensures
            r.strkeys() == contract_table(Network::Localnet),
    {
        ContractAddresses::build(
            "CAAAAAAAAAAAAAAAAAAAAAAAAAAAAAAAAAAAAAAAAAAAAAAAAAAAAAAD2",
            "CAAAAAAAAAAAAAAAAAAAAAAAAAAAAAAAAAAAAAAAAAAAAAAAAAAAAAAE2",
            "CAAAAAAAAAAAAAAAAAAAAAAAAAAAAAAAAAAAAAAAAAAAAAAAAAAAAAAF2",
            "CDMLFMKMMD7MWZP3FKUBZPVHTUEDLSX4BYGYKH4GCESXYHS3IHQ4EIG4",
            "CAAAAAAAAAAAAAAAAAAAAAAAAAAAAAAAAAAAAAAAAAAAAAAAAAAAAAAG2",
        )
    }

    /// The table of the given environment.
    pub fn for_network(network: Network) -> (r: ContractAddresses)
        ensures
            r.strkeys() == contract_table(network),
    {
        match network {
            Network::Futurenet => ContractAddresses::futurenet(),
            Network::Mainnet => ContractAddresses::mainnet(),
            Network::Localnet => ContractAddresses::localnet(),
        }
    }
}

/// Known vaults of one environment: one per well-known asset and one that
/// accepts several assets.
#[derive(Clone, Debug)]
pub struct VaultAddresses {
    pub usdc_vault: Address,
    pub xlm_vault: Address,
    pub aqua_vault: Address,
    pub mixed_vault: Address,
}

impl VaultAddresses {
    /// The strkeys of the table, in the order of `vault_table`.
    pub open spec fn strkeys(&self) -> (Seq<char>, Seq<char>, Seq<char>, Seq<char>) {
        (self.usdc_vault@, self.xlm_vault@, self.aqua_vault@, self.mixed_vault@)
    }

    fn build(u: &str, x: &str, q: &str, m: &str) -> (r: VaultAddresses)
        ensures
            r.strkeys() == (u@, x@, q@, m@),
    {
        VaultAddresses {
            usdc_vault: Address::from_strkey(u),
            xlm_vault: Address::from_strkey(x),
            aqua_vault: Address::from_strkey(q),
            mixed_vault: Address::from_strkey(m),
        }
    }

    /// The vaults of the test network.
    pub fn futurenet() -> (r: VaultAddresses)
        ensures
            r.strkeys() == vault_table(Network::Futurenet),
    {
        VaultAddresses::build(
            "CXXXXXXXXXXXXXXXXXXXXXXXXXXXXXXXXXXXXXXXXXXXXXXXXXXXXXXXXX",
            "CXXXXXXXXXXXXXXXXXXXXXXXXXXXXXXXXXXXXXXXXXXXXXXXXXXXXXXXXX",
            "CXXXXXXXXXXXXXXXXXXXXXXXXXXXXXXXXXXXXXXXXXXXXXXXXXXXXXXXXX",
            "CXXXXXXXXXXXXXXXXXXXXXXXXXXXXXXXXXXXXXXXXXXXXXXXXXXXXXXXXX",
        )
    }

    /// The vaults of the production network.
    pub fn mainnet() -> (r: VaultAddresses)
        ensures
            r.strkeys() == vault_table(Network::Mainnet),
    {
        VaultAddresses::build(
            "CXXXXXXXXXXXXXXXXXXXXXXXXXXXXXXXXXXXXXXXXXXXXXXXXXXXXXXXXX",
            "CXXXXXXXXXXXXXXXXXXXXXXXXXXXXXXXXXXXXXXXXXXXXXXXXXXXXXXXXX",
            "CXXXXXXXXXXXXXXXXXXXXXXXXXXXXXXXXXXXXXXXXXXXXXXXXXXXXXXXXX",
            "CXXXXXXXXXXXXXXXXXXXXXXXXXXXXXXXXXXXXXXXXXXXXXXXXXXXXXXXXX",
        )
    }

    /// The vaults of a local test ledger.
    pub fn localnet() -> (r: VaultAddresses)
        ensures
            r.strkeys() == vault_table(Network::Localnet),
    {
        VaultAddresses::build(
            "CAAAAAAAAAAAAAAAAAAAAAAAAAAAAAAAAAAAAAAAAAAAAAAAAAAAAAAH2",
            "CAAAAAAAAAAAAAAAAAAAAAAAAAAAAAAAAAAAAAAAAAAAAAAAAAAAAAAI2",
            "CAAAAAAAAAAAAAAAAAAAAAAAAAAAAAAAAAAAAAAAAAAAAAAAAAAAAAAJ2",
            "CAAAAAAAAAAAAAAAAAAAAAAAAAAAAAAAAAAAAAAAAAAAAAAAAAAAAAAK2",
        )
    }

    /// The vaults of the given environment.
    pub fn for_network(network: Network) -> (r: VaultAddresses)
        ensures
            r.strkeys() == vault_table(network),
    {
        match network {
            Network::Futurenet => VaultAddresses::futurenet(),
            Network::Mainnet => VaultAddresses::mainnet(),
            Network::Localnet => VaultAddresses::localnet(),
        }
    }
}

} // verus!
