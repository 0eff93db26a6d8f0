//! Control core of a quadruped robot.

use vstd::prelude::*;

pub mod axis;
pub mod balance;
pub mod bridge;
pub mod cli;
pub mod command;
pub mod config;
pub mod controller;
pub mod dispatch;
pub mod distance;
pub mod estimator;
pub mod flip_laws;
pub mod footwork;
pub mod intent;
pub mod jointvec;
pub mod keys;
pub mod knee;
pub mod knee_laws;
pub mod legs;
pub mod mpc;
pub mod observation;
pub mod parking;
pub mod pilot;
pub mod plant;
pub mod posture;
pub mod record;
pub mod recording;
pub mod rehearsal;
pub mod replay;
pub mod robot;
pub mod runner;
pub mod safety;
pub mod scalar;
pub mod serial;
pub mod simulated;
pub mod targets;
pub mod text;
pub mod time;

verus! {

}
