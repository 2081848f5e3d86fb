use wallet::{Operation, Transaction, Wallet, WalletError};

#[test]
fn buy_some_stock() {
    let mut wallet = Wallet::new();
    let operation = Operation(vec![Transaction::Buy { quantity: 7 }]);

    let result = wallet.execute(&operation);

    assert!(result.is_ok());
    assert_eq!(result.unwrap(), 7);
}

#[test]
fn buy_and_sell_some_stock() {
    let mut wallet = Wallet::new();
    let operation = Operation(vec![
        Transaction::Buy { quantity: 7 },
        Transaction::Sell { quantity: 2 },
    ]);

    let result = wallet.execute(&operation);

    assert!(result.is_ok());
    assert_eq!(result.unwrap(), 5);
}

#[test]
fn fail_when_selling_more_than_owned() {
    let mut wallet = Wallet::new();
    let operation = Operation(vec![
        Transaction::Buy { quantity: 5 },
        Transaction::Sell { quantity: 7 },
    ]);

    let result = wallet.execute(&operation);

    assert!(result.is_err());
    assert_eq!(result.unwrap_err().message(), "Not enough stock to sell");
    assert_eq!(wallet.quantity(), 0);
}

#[test]
fn property_wallet_quantity_is_never_negative() {
    // A deterministic stand-in for a random generator: a linear congruential
    // step, drawn from for lengths and amounts.
    let mut state: u64 = 0x853c49e6748fea9b;
    let mut draw = move || -> u16 {
        state = state
            .wrapping_mul(6364136223846793005)
            .wrapping_add(1442695040888963407);
        (state >> 33) as u16
    };

    for _ in 0..200 {
        let number_of_transactions: u16 = draw() / 1000;
        let mut transactions = vec![];
        let mut count: u16 = 0;
        while count < number_of_transactions {
            let quantity: u16 = draw();
            transactions.push(match draw() % 2 == 0 {
                true => Transaction::Buy { quantity },
                false => Transaction::Sell {
                    quantity: quantity / 100,
                },
            });
            count += 1;
        }

        let mut wallet = Wallet::new();
        wallet.execute(&Operation(transactions)).ok();
        assert!(wallet.quantity() >= 0);
    }
}

#[test]
fn empty_operation_changes_nothing() {
    let mut wallet = Wallet::new();
    let filled = Operation(vec![Transaction::Buy { quantity: 3 }]);
    wallet.execute(&filled).unwrap();

    let result = wallet.execute(&Operation(vec![]));

    assert_eq!(result.unwrap(), 3);
    assert_eq!(wallet.quantity(), 3);
}

#[test]
fn sell_zero_succeeds_trivially() {
    let mut wallet = Wallet::new();
    let operation = Operation(vec![Transaction::Sell { quantity: 0 }]);

    let result = wallet.execute(&operation);

    assert_eq!(result.unwrap(), 0);
    assert_eq!(wallet.quantity(), 0);
}

#[test]
fn sell_exact_holdings_reaches_zero() {
    let mut wallet = Wallet::new();
    wallet
        .execute(&Operation(vec![Transaction::Buy { quantity: 10 }]))
        .unwrap();

    let result = wallet.execute(&Operation(vec![Transaction::Sell { quantity: 10 }]));

    assert_eq!(result.unwrap(), 0);
    assert_eq!(wallet.quantity(), 0);
}

#[test]
fn failure_rolls_back_to_the_balance_before_the_call() {
    let mut wallet = Wallet::new();
    wallet
        .execute(&Operation(vec![Transaction::Buy { quantity: 10 }]))
        .unwrap();

    let operation = Operation(vec![
        Transaction::Buy { quantity: 500 },
        Transaction::Buy { quantity: 40 },
        Transaction::Sell { quantity: 60000 },
    ]);
    let result = wallet.execute(&operation);

    assert_eq!(result.unwrap_err(), WalletError::InsufficientStock);
    assert_eq!(wallet.quantity(), 10);
}

#[test]
fn fail_when_buying_past_the_quantity_limit() {
    let mut wallet = Wallet::new();
    // 32768 buys of 65535 stay just under i32::MAX; one more overflows.
    let mut transactions = vec![];
    let mut count: u32 = 0;
    while count < 32769 {
        transactions.push(Transaction::Buy { quantity: 65535 });
        count += 1;
    }

    let result = wallet.execute(&Operation(transactions));

    assert_eq!(result.unwrap_err(), WalletError::QuantityOverflow);
    assert_eq!(result.unwrap_err().message(), "Quantity limit exceeded");
    assert_eq!(wallet.quantity(), 0);
}

#[test]
fn buys_and_sells_add_up_in_order() {
    let mut wallet = Wallet::new();
    let operation = Operation(vec![
        Transaction::Buy { quantity: 100 },
        Transaction::Sell { quantity: 40 },
        Transaction::Buy { quantity: 1 },
        Transaction::Sell { quantity: 61 },
        Transaction::Buy { quantity: 9 },
    ]);

    let result = wallet.execute(&operation);

    assert_eq!(result.unwrap(), 100 - 40 + 1 - 61 + 9);
    assert_eq!(wallet.quantity(), 9);
}
