use abraca::common::defs::{Ccy, Exch, Inst, InstType, OrdState, OrdType, Side, TdMode};
use abraca::common::msgs::{CancelOrder, CancelReject, ExecutionReport, NewOrder, Num, Timestamp};
use abraca::prelude::Msg;

fn inst() -> Inst {
    Inst { exch: Exch::Okx, base_ccy: Ccy::ETH, quote_ccy: Ccy::USDT, inst_type: InstType::Margin }
}

#[test]
fn quantities_keep_their_bits() {
    for x in [0.0f64, -0.0, 1.5, -2.25, 111.06, f64::MAX, f64::MIN_POSITIVE, f64::INFINITY] {
        let n = Num::from_bits(x.to_bits());
        assert_eq!(n.to_bits(), x.to_bits());
        assert_eq!(f64::from_bits(n.to_bits()), x);
    }
    assert_eq!(Num::zero().to_bits(), 0);
    assert_eq!(f64::from_bits(Num::zero().to_bits()), 0.0);
    assert!(f64::from_bits(Num::zero().to_bits()).is_sign_positive());
    assert_eq!(Num::zero(), Num::from_bits(0.0f64.to_bits()));
}

#[test]
fn rejection_of_an_order_keeps_what_was_ordered() {
    let order = NewOrder {
        inst: inst(),
        cl_ord_id: -3,
        side: Side::Sell,
        ord_type: OrdType::Fok,
        td_mode: TdMode::Isolated,
        px: Num::from_bits(2.5f64.to_bits()),
        sz: Num::from_bits(10.0f64.to_bits()),
    };
    let ts = Timestamp { secs: 12, nanos: 34 };
    let zero = Num::zero();
    assert_eq!(ExecutionReport::rejected(&order, ts), ExecutionReport {
        c_time: ts,
        u_time: ts,
        inst: inst(),
        ord_id: 0,
        cl_ord_id: -3,
        px: order.px,
        sz: order.sz,
        notional_usd: zero,
        ord_type: OrdType::Fok,
        side: Side::Sell,
        fill_px: zero,
        fill_sz: zero,
        acc_fill_sz: zero,
        avg_px: zero,
        state: OrdState::Rejected,
        lever: zero,
        fee: zero,
    });
}

#[test]
fn rejection_of_a_cancel_names_the_order() {
    let cancel = CancelOrder { inst: inst(), cl_ord_id: 99 };
    let ts = Timestamp { secs: -1, nanos: 0 };
    assert_eq!(CancelReject::rejected(&cancel, ts), CancelReject {
        u_time: ts,
        inst: inst(),
        cl_ord_id: 99
    });
    assert_ne!(Msg::CancelOrder(cancel), Msg::SigTerm);
}
