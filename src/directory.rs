use vstd::prelude::*;

use crate::address::Address;
use crate::config::{contract_table, vault_table, ContractAddresses, Network, VaultAddresses};
use crate::zap::Zap;

verus! {

/// Strkeys of the vaults that take `asset` in an environment: the vault of
/// each well-known asset that `asset` is, then the multi-asset vault.
pub open spec fn available_vaults(network: Network, asset: Seq<char>) -> Seq<Seq<char>> {
    let (_, _, usdc, xlm, aqua) = contract_table(network);
    let (usdc_vault, xlm_vault, aqua_vault, mixed_vault) = vault_table(network);
    (if asset == usdc { seq![usdc_vault] } else { seq![] })
        + (if asset == xlm { seq![xlm_vault] } else { seq![] })
        + (if asset == aqua { seq![aqua_vault] } else { seq![] })
        + seq![mixed_vault]
}

/// The strkeys of a list of addresses.
pub open spec fn strkeys_of(v: Seq<Address>) -> Seq<Seq<char>> {
    v.map_values(|a: Address| a@)
}

impl Zap {
    /// The known vaults that accept `asset` in the given environment. The
    /// multi-asset vault is always among them, last.
    pub fn get_available_vaults(network: Network, asset: &Address) -> (r: Vec<Address>)
        ensures
            strkeys_of(r@) == available_vaults(network, asset@),
    {
        let contracts = ContractAddresses::for_network(network);
        let vaults = VaultAddresses::for_network(network);
        let mut available: Vec<Address> = Vec::new();
        let ghost expected: Seq<Seq<char>> = seq![];
        if asset.same_as(&contracts.usdc) {
            available.push(vaults.usdc_vault);
            proof {
                expected = expected + seq![vault_table(network).0];
            }
        }
        assert(strkeys_of(available@) =~= expected);
        if asset.same_as(&contracts.xlm) {
            available.push(vaults.xlm_vault);
            proof {
                expected = expected + seq![vault_table(network).1];
            }
        }
        assert(strkeys_of(available@) =~= expected);
        if asset.same_as(&contracts.aqua) {
            available.push(vaults.aqua_vault);
            proof {
                expected = expected + seq![vault_table(network).2];
            }
        }
        assert(strkeys_of(available@) =~= expected);
        available.push(vaults.mixed_vault);
        proof {
            expected = expected + seq![vault_table(network).3];
        }
        assert(strkeys_of(available@) =~= expected);
        assert(expected =~= available_vaults(network, asset@));
        available
    }
}

/// The multi-asset vault is offered for every asset, the stable asset's own
/// vault is offered for the stable asset, and an asset that is none of the
/// well-known ones is offered the multi-asset vault alone.
pub proof fn lemma_vault_directory(network: Network, asset: Seq<char>)
    ensures
        available_vaults(network, asset).contains(vault_table(network).3),
        asset == contract_table(network).2 ==> available_vaults(network, asset).contains(
            vault_table(network).0,
        ),
        (asset != contract_table(network).2 && asset != contract_table(network).3 && asset
            != contract_table(network).4) ==> available_vaults(network, asset) == seq![
            vault_table(network).3,
        ],
{
    let v = available_vaults(network, asset);
    assert(v[v.len() - 1] == vault_table(network).3);
    if asset == contract_table(network).2 {
        assert(v[0] == vault_table(network).0);
    }
    if asset != contract_table(network).2 && asset != contract_table(network).3 && asset
        != contract_table(network).4 {
        assert(v =~= seq![vault_table(network).3]);
    }
}

} // verus!
