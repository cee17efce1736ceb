use earnnft::{
    add_plugin, advance, begin, create_collection_with_state, mint_locked_asset, unlock_asset,
    AddPlugin, Address, AssetRef, CollectionState, CreateCollectionWithState, Creator,
    CustomError, Lifecycle, MintLockedAsset, Plugin, PluginAuthority, PluginAuthorityPair,
    PolicyStore, Progress, RegistryCall, UnlockAsset,
};

fn addr(b: u8) -> Address {
    Address::new([b; 32])
}

const COLLECTION: u8 = 1;
const AUTHORITY: u8 = 2;
const PAYER: u8 = 3;
const ASSET: u8 = 4;
const OWNER: u8 = 5;
const REGISTRY: u8 = 6;

fn record(pre: u16, post: u16) -> CollectionState {
    CollectionState {
        collection: addr(COLLECTION),
        unlock_ts: 1000,
        pre_unlock_bps: pre,
        post_unlock_bps: post,
        update_authority: addr(AUTHORITY),
    }
}

fn create_ctx() -> CreateCollectionWithState {
    CreateCollectionWithState {
        collection: addr(COLLECTION),
        payer: addr(PAYER),
        update_authority: addr(AUTHORITY),
        mpl_core_program: addr(REGISTRY),
    }
}

fn mint_ctx() -> MintLockedAsset {
    MintLockedAsset {
        asset: addr(ASSET),
        collection: addr(COLLECTION),
        owner: addr(OWNER),
        payer: addr(PAYER),
        update_authority: addr(AUTHORITY),
        mpl_core_program: addr(REGISTRY),
    }
}

fn unlock_ctx() -> UnlockAsset {
    UnlockAsset {
        asset: addr(ASSET),
        collection: addr(COLLECTION),
        payer: addr(PAYER),
        update_authority: addr(AUTHORITY),
        mpl_core_program: addr(REGISTRY),
    }
}

fn plugin_ctx() -> AddPlugin {
    AddPlugin {
        asset: addr(ASSET),
        collection: addr(COLLECTION),
        payer: addr(PAYER),
        update_authority: addr(AUTHORITY),
        mpl_core_program: addr(REGISTRY),
    }
}

fn royalties(bps: u16) -> Plugin {
    Plugin::Royalties {
        basis_points: bps,
        creators: vec![Creator { address: addr(AUTHORITY), percentage: 100 }],
    }
}

fn s(text: &str) -> String {
    String::from(text)
}

#[test]
fn create_collection_returns_the_call_and_the_record() {
    let (call, rec) = create_collection_with_state(
        &create_ctx(),
        &addr(REGISTRY),
        s("Gold"),
        s("https://example.org/gold"),
        1000,
        1000,
        250,
    )
    .unwrap();
    assert_eq!(
        call,
        RegistryCall::CreateCollection {
            collection: addr(COLLECTION),
            update_authority: addr(AUTHORITY),
            payer: addr(PAYER),
            name: s("Gold"),
            uri: s("https://example.org/gold"),
            plugins: vec![],
        }
    );
    assert_eq!(rec, record(1000, 250));
}

#[test]
fn create_collection_rejects_invalid_terms_in_order() {
    let ctx = create_ctx();
    let reg = addr(REGISTRY);
    assert_eq!(
        create_collection_with_state(&ctx, &reg, s("n"), s("u"), 1000, 10001, 250),
        Err(CustomError::InvalidBps)
    );
    assert_eq!(
        create_collection_with_state(&ctx, &reg, s("n"), s("u"), 1000, 250, 10001),
        Err(CustomError::InvalidBps)
    );
    assert_eq!(
        create_collection_with_state(&ctx, &reg, s("n"), s("u"), 0, 250, 250),
        Err(CustomError::InvalidUnlockTs)
    );
    assert_eq!(
        create_collection_with_state(&ctx, &reg, s("n"), s("u"), 0, 10001, 250),
        Err(CustomError::InvalidBps)
    );
    assert_eq!(
        create_collection_with_state(&ctx, &addr(9), s("n"), s("u"), 1000, 250, 250),
        Err(CustomError::InvalidRegistryProgram)
    );
    assert_eq!(
        create_collection_with_state(&ctx, &addr(9), s("n"), s("u"), -1, 250, 250),
        Err(CustomError::InvalidUnlockTs)
    );
}

#[test]
fn mint_carries_the_pre_unlock_rate_and_the_freeze() {
    let call =
        mint_locked_asset(&mint_ctx(), &record(500, 100), &addr(REGISTRY), s("X"), s("uri"))
            .unwrap();
    assert_eq!(
        call,
        RegistryCall::CreateAsset {
            asset: addr(ASSET),
            collection: addr(COLLECTION),
            owner: addr(OWNER),
            update_authority: addr(AUTHORITY),
            payer: addr(PAYER),
            name: s("X"),
            uri: s("uri"),
            plugins: vec![
                PluginAuthorityPair {
                    plugin: royalties(500),
                    authority: Some(PluginAuthority::UpdateAuthority),
                },
                PluginAuthorityPair {
                    plugin: Plugin::FreezeDelegate { frozen: true },
                    authority: Some(PluginAuthority::UpdateAuthority),
                },
            ],
        }
    );
}

#[test]
fn mint_rejects_an_unbound_request() {
    let reg = addr(REGISTRY);
    let mut ctx = mint_ctx();
    ctx.collection = addr(9);
    assert_eq!(
        mint_locked_asset(&ctx, &record(500, 100), &reg, s("X"), s("u")),
        Err(CustomError::StateCollectionMismatch)
    );
    let mut ctx = mint_ctx();
    ctx.update_authority = addr(9);
    assert_eq!(
        mint_locked_asset(&ctx, &record(500, 100), &reg, s("X"), s("u")),
        Err(CustomError::BadAuthority)
    );
    let mut ctx = mint_ctx();
    ctx.mpl_core_program = addr(9);
    assert_eq!(
        mint_locked_asset(&ctx, &record(500, 100), &reg, s("X"), s("u")),
        Err(CustomError::InvalidRegistryProgram)
    );
    ctx.update_authority = addr(9);
    assert_eq!(
        mint_locked_asset(&ctx, &record(500, 100), &reg, s("X"), s("u")),
        Err(CustomError::BadAuthority)
    );
}

#[test]
fn unlock_before_the_time_issues_nothing() {
    let r = unlock_asset(&unlock_ctx(), &record(1000, 250), &addr(REGISTRY), 999);
    assert_eq!(r, Err(CustomError::NotYetUnlocked));
}

#[test]
fn unlock_in_time_thaws_and_then_lowers_the_royalty() {
    let calls = unlock_asset(&unlock_ctx(), &record(1000, 250), &addr(REGISTRY), 1000).unwrap();
    assert_eq!(
        calls,
        vec![
            RegistryCall::UpdatePlugin {
                asset: addr(ASSET),
                authority: addr(AUTHORITY),
                payer: addr(PAYER),
                plugin: Plugin::FreezeDelegate { frozen: false },
            },
            RegistryCall::UpdatePlugin {
                asset: addr(ASSET),
                authority: addr(AUTHORITY),
                payer: addr(PAYER),
                plugin: royalties(250),
            },
        ]
    );
    let later = unlock_asset(&unlock_ctx(), &record(1000, 250), &addr(REGISTRY), 5000).unwrap();
    assert_eq!(later, calls);
}

#[test]
fn unlock_rejects_an_unbound_request_before_the_time_check() {
    let reg = addr(REGISTRY);
    let mut ctx = unlock_ctx();
    ctx.collection = addr(9);
    assert_eq!(
        unlock_asset(&ctx, &record(1000, 250), &reg, 999),
        Err(CustomError::StateCollectionMismatch)
    );
    let mut ctx = unlock_ctx();
    ctx.update_authority = addr(9);
    assert_eq!(
        unlock_asset(&ctx, &record(1000, 250), &reg, 999),
        Err(CustomError::BadAuthority)
    );
    assert_eq!(
        unlock_asset(&ctx, &record(1000, 250), &reg, 1000),
        Err(CustomError::BadAuthority)
    );
}

#[test]
fn unlock_checks_the_time_before_the_registry_program() {
    let mut ctx = unlock_ctx();
    ctx.mpl_core_program = addr(9);
    assert_eq!(
        unlock_asset(&ctx, &record(1000, 250), &addr(REGISTRY), 999),
        Err(CustomError::NotYetUnlocked)
    );
    assert_eq!(
        unlock_asset(&ctx, &record(1000, 250), &addr(REGISTRY), 1000),
        Err(CustomError::InvalidRegistryProgram)
    );
}

#[test]
fn add_plugin_passes_the_plugin_on_unread() {
    let reg = addr(REGISTRY);
    let other = Plugin::Other { data: vec![9, 8, 7] };
    assert_eq!(
        add_plugin(&plugin_ctx(), &record(1000, 250), &reg, other.clone()),
        Ok(RegistryCall::AddPlugin {
            asset: addr(ASSET),
            authority: addr(AUTHORITY),
            payer: addr(PAYER),
            plugin: other,
        })
    );
    let odd = Plugin::Royalties { basis_points: 60000, creators: vec![] };
    assert_eq!(
        add_plugin(&plugin_ctx(), &record(1000, 250), &reg, odd.clone()),
        Ok(RegistryCall::AddPlugin {
            asset: addr(ASSET),
            authority: addr(AUTHORITY),
            payer: addr(PAYER),
            plugin: odd,
        })
    );
}

#[test]
fn add_plugin_rejects_an_unbound_request() {
    let reg = addr(REGISTRY);
    let p = Plugin::FreezeDelegate { frozen: false };
    let mut ctx = plugin_ctx();
    ctx.collection = addr(9);
    assert_eq!(
        add_plugin(&ctx, &record(1000, 250), &reg, p.clone()),
        Err(CustomError::StateCollectionMismatch)
    );
    let mut ctx = plugin_ctx();
    ctx.update_authority = addr(9);
    assert_eq!(
        add_plugin(&ctx, &record(1000, 250), &reg, p.clone()),
        Err(CustomError::BadAuthority)
    );
    let mut ctx = plugin_ctx();
    ctx.mpl_core_program = addr(9);
    assert_eq!(
        add_plugin(&ctx, &record(1000, 250), &reg, p),
        Err(CustomError::InvalidRegistryProgram)
    );
}

#[test]
fn progress_goes_through_the_calls_in_order() {
    assert_eq!(begin(0), Progress::Complete);
    assert_eq!(begin(2), Progress::Issue(0));
    assert_eq!(advance(2, 0, Ok(())), Progress::Issue(1));
    assert_eq!(advance(2, 1, Ok(())), Progress::Complete);
    assert_eq!(advance(1, 0, Ok(())), Progress::Complete);
    assert_eq!(advance(0, 0, Ok(())), Progress::Complete);
    assert_eq!(advance(2, usize::MAX, Ok(())), Progress::Complete);
}

#[test]
fn progress_stops_at_the_first_refusal() {
    assert_eq!(
        advance(2, 0, Err(42)),
        Progress::Failed(CustomError::RegistryFailure(42))
    );
    assert_eq!(
        advance(2, 1, Err(7)),
        Progress::Failed(CustomError::RegistryFailure(7))
    );
}

#[test]
fn store_operations_need_a_record() {
    let store = PolicyStore::new();
    let reg = addr(REGISTRY);
    assert_eq!(store.mint(&mint_ctx(), &reg, s("X"), s("u")), Err(CustomError::NotFound));
    assert_eq!(store.unlock(&unlock_ctx(), &reg, 5000), Err(CustomError::NotFound));
    assert_eq!(
        store.mutate_plugin(&plugin_ctx(), &reg, Plugin::FreezeDelegate { frozen: true }),
        Err(CustomError::NotFound)
    );
}

#[test]
fn store_operations_reject_a_foreign_authority() {
    let mut store = PolicyStore::new();
    store.create(addr(COLLECTION), 1000, 1000, 250, addr(AUTHORITY)).unwrap();
    let reg = addr(REGISTRY);
    let mut m = mint_ctx();
    m.update_authority = addr(9);
    assert_eq!(store.mint(&m, &reg, s("X"), s("u")), Err(CustomError::BadAuthority));
    let mut u = unlock_ctx();
    u.update_authority = addr(9);
    assert_eq!(store.unlock(&u, &reg, 5000), Err(CustomError::BadAuthority));
    let mut p = plugin_ctx();
    p.update_authority = addr(9);
    assert_eq!(
        store.mutate_plugin(&p, &reg, Plugin::FreezeDelegate { frozen: true }),
        Err(CustomError::BadAuthority)
    );
    let mut other = unlock_ctx();
    other.collection = addr(9);
    assert_eq!(store.unlock(&other, &reg, 5000), Err(CustomError::NotFound));
}

#[test]
fn initialize_policy_refuses_a_second_collection_of_the_same_identity() {
    let mut store = PolicyStore::new();
    let reg = addr(REGISTRY);
    let (_, rec) = store
        .initialize_policy(&create_ctx(), &reg, s("Gold"), s("u"), 1000, 1000, 250)
        .unwrap();
    assert_eq!(store.lookup(&addr(COLLECTION)), Err(CustomError::NotFound));
    assert_eq!(store.complete_initialize(&rec, Ok(())), Ok(rec));
    assert_eq!(
        store.initialize_policy(&create_ctx(), &reg, s("Gold"), s("u"), 1000, 1000, 250),
        Err(CustomError::DuplicateRecord)
    );
    assert_eq!(
        store.initialize_policy(&create_ctx(), &reg, s("Gold"), s("u"), 0, 10001, 250),
        Err(CustomError::DuplicateRecord)
    );
    assert_eq!(store.lookup(&addr(COLLECTION)), Ok(record(1000, 250)));
}

#[test]
fn asset_model_follows_plugins() {
    let mut a = AssetRef::unminted(addr(ASSET));
    assert_eq!(a.lifecycle(&record(1000, 250)), Lifecycle::Unminted);
    a.apply(&RegistryCall::UpdatePlugin {
        asset: addr(ASSET),
        authority: addr(AUTHORITY),
        payer: addr(PAYER),
        plugin: Plugin::FreezeDelegate { frozen: true },
    });
    assert_eq!(a, AssetRef::unminted(addr(ASSET)));
    a.minted = true;
    a.attach(&royalties(77));
    assert_eq!(a.basis_points, 77);
    assert!(!a.frozen);
    a.attach(&Plugin::FreezeDelegate { frozen: true });
    assert!(a.frozen);
    a.attach(&Plugin::Other { data: vec![1] });
    assert_eq!(a.basis_points, 77);
    assert!(a.frozen);
    assert_eq!(a.lifecycle(&record(1000, 250)), Lifecycle::PluginMutated);
    assert_eq!(a.lifecycle(&record(77, 250)), Lifecycle::FrozenPreUnlock);
}

#[test]
fn scenario_time_locked_collection() {
    let reg = addr(REGISTRY);
    let mut store = PolicyStore::new();
    let (create, rec) = store
        .initialize_policy(&create_ctx(), &reg, s("C"), s("c-uri"), 1000, 1000, 250)
        .unwrap();
    assert!(matches!(create, RegistryCall::CreateCollection { .. }));
    let stored = store.complete_initialize(&rec, Ok(())).unwrap();
    assert_eq!(stored, record(1000, 250));

    let mut x = AssetRef::unminted(addr(ASSET));
    let mint = store.mint(&mint_ctx(), &reg, s("X"), s("x-uri")).unwrap();
    x.apply(&mint);
    assert!(x.minted);
    assert!(x.frozen);
    assert_eq!(x.basis_points, 1000);
    assert_eq!(x.lifecycle(&stored), Lifecycle::FrozenPreUnlock);

    let before = x;
    assert_eq!(store.unlock(&unlock_ctx(), &reg, 999), Err(CustomError::NotYetUnlocked));
    assert_eq!(x, before);

    let calls = store.unlock(&unlock_ctx(), &reg, 1000).unwrap();
    assert_eq!(calls.len(), 2);
    let mut step = begin(calls.len());
    let mut issued = 0;
    while let Progress::Issue(i) = step {
        x.apply(&calls[i]);
        issued += 1;
        step = advance(calls.len(), i, Ok(()));
    }
    assert_eq!(step, Progress::Complete);
    assert_eq!(issued, 2);
    assert!(!x.frozen);
    assert_eq!(x.basis_points, 250);
    assert_eq!(x.lifecycle(&stored), Lifecycle::UnfrozenPostUnlock);
}

#[test]
fn a_refused_second_call_leaves_the_asset_thawed_at_the_old_rate() {
    let calls = unlock_asset(&unlock_ctx(), &record(1000, 250), &addr(REGISTRY), 1000).unwrap();
    let mut x = AssetRef::unminted(addr(ASSET));
    x.minted = true;
    x.frozen = true;
    x.basis_points = 1000;
    x.apply(&calls[0]);
    let step = advance(calls.len(), 1, Err(5));
    assert_eq!(step, Progress::Failed(CustomError::RegistryFailure(5)));
    assert!(!x.frozen);
    assert_eq!(x.basis_points, 1000);
    let mut y = AssetRef::unminted(addr(ASSET));
    y.minted = true;
    y.frozen = true;
    y.basis_points = 1000;
    y.apply_all(&calls);
    assert!(!y.frozen);
    assert_eq!(y.basis_points, 250);
}

#[test]
fn the_authority_can_thaw_by_plugin_before_the_unlock_time() {
    let mut store = PolicyStore::new();
    let reg = addr(REGISTRY);
    let rec = store.create(addr(COLLECTION), 1000, 1000, 250, addr(AUTHORITY)).unwrap();
    let mut x = AssetRef::unminted(addr(ASSET));
    x.apply(&store.mint(&mint_ctx(), &reg, s("X"), s("u")).unwrap());
    let call = store
        .mutate_plugin(&plugin_ctx(), &reg, Plugin::FreezeDelegate { frozen: false })
        .unwrap();
    x.apply(&call);
    assert!(!x.frozen);
    assert_eq!(x.basis_points, 1000);
    assert_eq!(x.lifecycle(&rec), Lifecycle::PluginMutated);
}
