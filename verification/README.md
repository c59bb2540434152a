# fraud_check_post

Decisions of the fraud check that runs after a payment was authorised, verified with Verus.

The library makes no call. Each operation of `FraudCheckPost` hands out the call to make, together
with a value that waits for its answer; `resume` on that value takes the answer and hands out the
next call or the result.

- `get_trackers` finds the record of a check or has one made.
- `post_payment_frm` and `pre_payment_frm` tell the fraud service of a sale.
- `execute_post_tasks` acts on what the fraud service found: it cancels or captures the payment, or
  suggests that the merchant look at it.
- `update_tracker` stores the outcome: first the attempt, then the intent, then the check.

`src/laws.rs` states what holds over several of these steps. `src/outside.rs` holds what is taken
without proof: that copies of a JSON value and of a shared pointer are the value itself. Values of
the payment platform that the check only carries are types of the `Records` trait, and the texts
under which the platform writes its values down are given as `Labels`.

`app/` runs the operations against a platform that makes the calls.
