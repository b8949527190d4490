use kitties::{
    AccountId, Balance, ChainContext, Config, Currency, Event, Kitty, KittyId, Ledger, Pallet,
};

const ACCOUNTS: [AccountId; 4] = [1, 2, 3, 4];
const CAP: u32 = 6;

/// A small generator of reproducible pseudo-random numbers.
struct Lcg(u64);

impl Lcg {
    fn next(&mut self) -> u64 {
        self.0 = self.0.wrapping_mul(6364136223846793005).wrapping_add(1442695040888963407);
        self.0 >> 33
    }

    fn below(&mut self, n: u64) -> u64 {
        self.next() % n
    }
}

type Snapshot = (u64, Vec<Option<Kitty>>, Vec<Vec<KittyId>>, Vec<Balance>);

fn snapshot(pallet: &Pallet<Ledger>, known: &[KittyId]) -> Snapshot {
    (
        pallet.count_for_kitties(),
        known.iter().map(|id| pallet.kitties(id)).collect(),
        ACCOUNTS.iter().map(|who| pallet.kitties_owned(*who)).collect(),
        ACCOUNTS.iter().map(|who| pallet.currency().free_balance(*who)).collect(),
    )
}

fn check_invariants(pallet: &Pallet<Ledger>, known: &[KittyId]) {
    let mut listed = 0;
    for who in ACCOUNTS {
        let list = pallet.kitties_owned(who);
        assert!(list.len() <= CAP as usize);
        for (i, id) in list.iter().enumerate() {
            let kitty = pallet.kitties(id).unwrap();
            assert_eq!(kitty.id, *id);
            assert_eq!(kitty.owner, who);
            assert!(!list[..i].contains(id));
        }
        listed += list.len();
    }
    for id in known {
        let kitty = pallet.kitties(id).unwrap();
        assert!(pallet.kitties_owned(kitty.owner).contains(id));
    }
    assert_eq!(listed, known.len());
    assert_eq!(pallet.count_for_kitties(), known.len() as u64);
}

#[test]
fn invariants_hold_along_a_long_run_of_calls() {
    let mut ledger = Ledger::new(5);
    for who in ACCOUNTS {
        ledger.set_balance(who, 200);
    }
    let total: Balance = 800;
    let mut pallet = Pallet::new(Config::new(CAP), ledger);
    let mut known: Vec<KittyId> = Vec::new();
    let mut rng = Lcg(42);
    let mut counts = [0u32; 5];
    for step in 0..3000u32 {
        let ctx = ChainContext {
            random: [rng.below(256) as u8; 32],
            extrinsic_index: rng.below(4) as u32,
            block_number: (step / 10) as u64,
        };
        let who = ACCOUNTS[rng.below(4) as usize];
        let other = ACCOUNTS[rng.below(4) as usize];
        // Mostly a known kitty, sometimes an identifier that nobody has.
        let pick = |rng: &mut Lcg, known: &Vec<KittyId>| -> KittyId {
            if known.is_empty() || rng.below(8) == 0 {
                [rng.below(256) as u8; 16]
            } else {
                known[rng.below(known.len() as u64) as usize]
            }
        };
        let before = snapshot(&pallet, &known);
        let kind = [0, 1, 2, 3, 4, 4, 4, 4][rng.below(8) as usize];
        let result = match kind {
            0 => pallet.create_kitty(who, &ctx),
            1 => {
                let id = pick(&mut rng, &known);
                let price = if rng.below(3) == 0 { None } else { Some(rng.below(120) as Balance) };
                pallet.set_price(who, id, price)
            },
            2 => {
                let id = pick(&mut rng, &known);
                pallet.transfer(who, other, id)
            },
            3 => {
                let id = pick(&mut rng, &known);
                pallet.buy_kitty(who, id, rng.below(150) as Balance)
            },
            _ => {
                let mom = pick(&mut rng, &known);
                let dad = pick(&mut rng, &known);
                pallet.breed_kitty(who, mom, dad, &ctx)
            },
        };
        match result {
            Ok(event) => {
                counts[kind] += 1;
                match event {
                    Event::Created { kitty, owner } => {
                        assert!(!known.contains(&kitty));
                        assert_eq!(owner, who);
                        known.push(kitty);
                    },
                    Event::Transferred { to, kitty, .. } | Event::Sold { buyer: to, kitty, .. } => {
                        let moved = pallet.kitties(&kitty).unwrap();
                        assert_eq!(moved.owner, to);
                        assert_eq!(moved.price, None);
                    },
                    Event::PriceSet { kitty, price } => {
                        assert_eq!(pallet.kitties(&kitty).unwrap().price, price);
                    },
                }
            },
            Err(_) => assert_eq!(snapshot(&pallet, &known), before),
        }
        check_invariants(&pallet, &known);
        let funds: Balance = ACCOUNTS.iter().map(|who| pallet.currency().free_balance(*who)).sum();
        assert_eq!(funds, total);
        for who in ACCOUNTS {
            assert!(pallet.currency().free_balance(who) >= 5);
        }
    }
    // The run exercised every operation.
    for kind in 0..5 {
        assert!(counts[kind] > 0, "no call of kind {} succeeded", kind);
    }
}
