use zap::{Address, ContractAddresses, MockSoroswapAggregator, MockVault, Network, VaultAddresses, Zap};

fn strkeys(v: &[Address]) -> Vec<String> {
    v.iter().map(|a| a.strkey.clone()).collect()
}

#[test]
fn futurenet_table_holds_its_addresses() {
    let c = ContractAddresses::futurenet();
    assert_eq!(c.soroswap_aggregator.strkey, "CDLZFC3SYJYDZT7K67VZ75HPJVIEUVNIXF47ZG2FB2RMQQADUHHZX252");
    assert_eq!(c.defindex_factory.strkey, "CA7QYNF7SOWQ3GLR2BGMZEHXAVIRZA4KVWLTJJFC7MGXUA74P7UJUIGZ");
    assert_eq!(c.usdc.strkey, "CBIELTK6YBZJU5UP2WWQEUCYKLPU6AUNZ2BQ4WWFEIE3USCIHMXQDAMA");
    assert_eq!(c.xlm.strkey, "CDMLFMKMMD7MWZP3FKUBZPVHTUEDLSX4BYGYKH4GCESXYHS3IHQ4EIG4");
    assert_eq!(c.aqua.strkey, "CCKDJ67DZSKSYLWVW5VPYMTVUXM6ZFXE7AQLNWRQJGLTC44MLJMB3S3Y");
}

#[test]
fn tables_follow_the_network() {
    for n in [Network::Futurenet, Network::Mainnet, Network::Localnet] {
        let c = ContractAddresses::for_network(n);
        let v = VaultAddresses::for_network(n);
        let (ec, ev) = match n {
            Network::Futurenet => (ContractAddresses::futurenet(), VaultAddresses::futurenet()),
            Network::Mainnet => (ContractAddresses::mainnet(), VaultAddresses::mainnet()),
            Network::Localnet => (ContractAddresses::localnet(), VaultAddresses::localnet()),
        };
        assert_eq!(c.soroswap_aggregator, ec.soroswap_aggregator);
        assert_eq!(c.usdc, ec.usdc);
        assert_eq!(v.mixed_vault, ev.mixed_vault);
        assert_eq!(v.usdc_vault, ev.usdc_vault);
    }
    assert_eq!(
        ContractAddresses::mainnet().usdc.strkey,
        "CCW67TSZV3SSS2HXMBQ5JFGCKJNXKZM7UQUWUZPUTHXSTZLEO7SJMI75"
    );
    assert_eq!(
        VaultAddresses::localnet().mixed_vault.strkey,
        "CAAAAAAAAAAAAAAAAAAAAAAAAAAAAAAAAAAAAAAAAAAAAAAAAAAAAAAK2"
    );
}

#[test]
fn stable_asset_gets_its_vault_and_the_mixed_vault() {
    let c = ContractAddresses::localnet();
    let v = VaultAddresses::localnet();
    let vaults = Zap::get_available_vaults(Network::Localnet, &c.usdc);
    assert_eq!(strkeys(&vaults), strkeys(&[v.usdc_vault, v.mixed_vault]));
}

#[test]
fn each_known_asset_gets_its_own_vault() {
    let c = ContractAddresses::localnet();
    let v = VaultAddresses::localnet();
    assert_eq!(
        Zap::get_available_vaults(Network::Localnet, &c.xlm),
        vec![v.xlm_vault.clone(), v.mixed_vault.clone()]
    );
    assert_eq!(
        Zap::get_available_vaults(Network::Localnet, &c.aqua),
        vec![v.aqua_vault.clone(), v.mixed_vault.clone()]
    );
}

#[test]
fn unknown_asset_gets_only_the_mixed_vault() {
    let other = Address::from_strkey("CUNKNOWNASSETAAAAAAAAAAAAAAAAAAAAAAAAAAAAAAAAAAAAAAAAAAAA");
    for n in [Network::Futurenet, Network::Mainnet, Network::Localnet] {
        let vaults = Zap::get_available_vaults(n, &other);
        assert_eq!(vaults, vec![VaultAddresses::for_network(n).mixed_vault]);
    }
}

#[test]
fn futurenet_stable_asset_vaults() {
    let c = ContractAddresses::futurenet();
    let v = VaultAddresses::futurenet();
    let vaults = Zap::get_available_vaults(Network::Futurenet, &c.usdc);
    assert_eq!(vaults.len(), 2);
    assert!(vaults.contains(&v.usdc_vault));
    assert_eq!(vaults[1], v.mixed_vault);
}

#[test]
fn mock_aggregator_pays_the_fixed_rate() {
    let a = Address::from_strkey("CA");
    let b = Address::from_strkey("CB");
    assert_eq!(MockSoroswapAggregator::swap(a.clone(), b.clone(), 1000, 0, vec![], vec![]), 950);
    assert_eq!(MockSoroswapAggregator::swap(a.clone(), b.clone(), 99, 0, vec![], vec![]), 94);
    assert_eq!(MockSoroswapAggregator::get_amounts_out(a.clone(), b.clone(), 1000, vec![], vec![]), 950);
    let (path, distribution) = MockSoroswapAggregator::get_best_route(a.clone(), b.clone(), 1000);
    assert_eq!(path, vec![a, b]);
    assert_eq!(distribution, vec![100u32]);
}

#[test]
fn mock_vault_halves_deposits() {
    let a = Address::from_strkey("CA");
    assert_eq!(MockVault::deposit(a.clone(), 950, a.clone()), 475);
    assert_eq!(MockVault::deposit(a.clone(), 7, a.clone()), 3);
    assert_eq!(MockVault::preview_deposit(1000), 500);
    assert_eq!(MockVault::withdraw(475, a.clone()), 950);
    assert_eq!(MockVault::get_info(), vec![1000000i128, 500000i128]);
    assert_eq!(MockVault::balance_of(a), 100);
}

#[test]
fn addresses_compare_by_strkey() {
    let a = Address::from_strkey("GABC");
    let b = Address::from_strkey("GABC");
    let c = Address::from_strkey("GABD");
    assert!(a.same_as(&b));
    assert!(!a.same_as(&c));
    assert_eq!(a, b);
    assert_ne!(a, c);
    assert_eq!(a.copied(), a);
}
